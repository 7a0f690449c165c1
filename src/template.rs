//! Converter expressions with a single substitution point.
use vstd::prelude::*;

use crate::text::cat;

verus! {

/// The text that stands for the substitution point when a template is
/// shown on its own.
pub const FROM_VAR: &'static str = "{from_var}";

/// One piece of a converter expression.
#[derive(Debug)]
pub enum Segment {
    /// Literal expression text.
    Text(String),
    /// The value being converted.
    Value,
}

/// What a segment stands for.
pub ghost enum Part {
    Text(Seq<char>),
    Value,
}

impl View for Segment {
    type V = Part;

    open spec fn view(&self) -> Part {
        match self {
            Segment::Text(s) => Part::Text(s@),
            Segment::Value => Part::Value,
        }
    }
}

/// An expression template: a function from the expression of the value
/// being converted to the final expression text.
#[derive(Debug)]
pub struct Template {
    pub segments: Vec<Segment>,
}

impl View for Template {
    type V = Seq<Part>;

    open spec fn view(&self) -> Seq<Part> {
        self.segments@.map_values(|s: Segment| s@)
    }
}

/// The text of one part with `v` substituted.
pub open spec fn part_text(p: Part, v: Seq<char>) -> Seq<char> {
    match p {
        Part::Text(s) => s,
        Part::Value => v,
    }
}

/// The text of a template with `v` substituted for every substitution point.
pub open spec fn render_parts(parts: Seq<Part>, v: Seq<char>) -> Seq<char>
    decreases parts.len(),
{
    if parts.len() == 0 {
        Seq::empty()
    } else {
        render_parts(parts.drop_last(), v) + part_text(parts.last(), v)
    }
}

/// Which parts are the substitution point: the branching structure of an
/// expression, apart from its literal text.
pub open spec fn shape(parts: Seq<Part>) -> Seq<bool> {
    parts.map_values(|p: Part| p is Value)
}

impl Template {
    /// An empty expression.
    pub fn new() -> (r: Template)
        ensures
            r@ == Seq::<Part>::empty(),
    {
        let r = Template { segments: Vec::new() };
        assert(r@ =~= Seq::<Part>::empty());
        r
    }

    /// A template that is only literal text, with no substitution point.
    pub fn literal(s: &str) -> (r: Template)
        ensures
            r@ == seq![Part::Text(s@)],
    {
        let mut r = Template::new();
        r.push_text(s);
        assert(r@ =~= seq![Part::Text(s@)]);
        r
    }

    /// Appends literal text.
    pub fn push_text(&mut self, s: &str)
        ensures
            final(self)@ == old(self)@.push(Part::Text(s@)),
    {
        self.segments.push(Segment::Text(String::from_str(s)));
        assert(self@ =~= old(self)@.push(Part::Text(s@)));
    }

    /// Appends the substitution point.
    pub fn push_value(&mut self)
        ensures
            final(self)@ == old(self)@.push(Part::Value),
    {
        self.segments.push(Segment::Value);
        assert(self@ =~= old(self)@.push(Part::Value));
    }

    /// Substitutes `value` for every substitution point.
    pub fn render(&self, value: &str) -> (r: String)
        ensures
            r@ == render_parts(self@, value@),
    {
        let mut out = String::new();
        let mut i: usize = 0;
        while i < self.segments.len()
            invariant
                i <= self.segments.len(),
                out@ == render_parts(self@.take(i as int), value@),
            decreases self.segments.len() - i,
        {
            assert(self@.take(i + 1).drop_last() =~= self@.take(i as int));
            match &self.segments[i] {
                Segment::Text(s) => {
                    out = cat(out.as_str(), s.as_str());
                },
                Segment::Value => {
                    out = cat(out.as_str(), value);
                },
            }
            i = i + 1;
        }
        assert(self@.take(i as int) =~= self@);
        out
    }

    /// The template as text, with the substitution point written as
    /// `{from_var}`.
    pub fn text(&self) -> (r: String)
        ensures
            r@ == render_parts(self@, FROM_VAR@),
    {
        self.render(FROM_VAR)
    }
}

} // verus!
