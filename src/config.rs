//! The dialect configuration of one run and the record of what the run has
//! generated so far.
use vstd::prelude::*;

use crate::registry::ExportedClassInfo;
use crate::text::{cat, cat3, owned};

verus! {

/// Which library supplies optional values on the foreign side.
#[derive(Clone, Copy, Debug, PartialEq, Eq, Structural)]
pub enum OptionalDialect {
    Std17,
    Boost,
}

/// Which library supplies tagged unions on the foreign side.
#[derive(Clone, Copy, Debug, PartialEq, Eq, Structural)]
pub enum VariantDialect {
    Std17,
    Boost,
}

/// Read-only settings of one generation run.
#[derive(Debug)]
pub struct DialectConfig {
    pub optional: OptionalDialect,
    pub variant: VariantDialect,
    /// Where helper headers go.
    pub output_dir: String,
    /// The foreign namespace that helper declarations live in.
    pub namespace_name: String,
}

pub open spec fn optional_template(d: OptionalDialect) -> Seq<char> {
    match d {
        OptionalDialect::Std17 => "std::optional"@,
        OptionalDialect::Boost => "boost::optional"@,
    }
}

pub open spec fn variant_template(d: VariantDialect) -> Seq<char> {
    match d {
        VariantDialect::Std17 => "std::variant"@,
        VariantDialect::Boost => "boost::variant"@,
    }
}

/// The optional wrapper template's name in dialect `d`.
pub fn optional_template_name(d: OptionalDialect) -> (r: &'static str)
    ensures
        r@ == optional_template(d),
{
    match d {
        OptionalDialect::Std17 => "std::optional",
        OptionalDialect::Boost => "boost::optional",
    }
}

/// The tagged-union template's name in dialect `d`.
pub fn variant_template_name(d: VariantDialect) -> (r: &'static str)
    ensures
        r@ == variant_template(d),
{
    match d {
        VariantDialect::Std17 => "std::variant",
        VariantDialect::Boost => "boost::variant",
    }
}

/// The name of the vector wrapper for elements of class `class_name`.
pub open spec fn vec_wrapper_type(class_name: Seq<char>) -> Seq<char> {
    "RustForeignVec"@ + class_name
}

/// The name of the function that frees such a vector.
pub open spec fn vec_free_func(class_name: Seq<char>) -> Seq<char> {
    vec_wrapper_type(class_name) + "_free"@
}

/// `file` placed in directory `dir`.
pub open spec fn join_path(dir: Seq<char>, file: Seq<char>) -> Seq<char> {
    if dir.len() == 0 {
        file
    } else if dir.last() == '/' {
        dir + file
    } else {
        dir + "/"@ + file
    }
}

/// The helper header that declares the vector wrapper of `class_name`.
pub open spec fn vec_helper_path(dir: Seq<char>, class_name: Seq<char>) -> Seq<char> {
    join_path(dir, vec_wrapper_type(class_name) + ".h"@)
}

/// Computes [`vec_wrapper_type`].
pub fn vec_wrapper_type_name(class_name: &str) -> (r: String)
    ensures
        r@ == vec_wrapper_type(class_name@),
{
    cat("RustForeignVec", class_name)
}

/// Computes [`vec_free_func`].
pub fn vec_free_func_name(class_name: &str) -> (r: String)
    ensures
        r@ == vec_free_func(class_name@),
{
    cat3("RustForeignVec", class_name, "_free")
}

/// Computes [`join_path`].
pub fn join_dir(dir: &str, file: &str) -> (r: String)
    ensures
        r@ == join_path(dir@, file@),
{
    let n = dir.unicode_len();
    if n == 0 {
        owned(file)
    } else if dir.get_char(n - 1) == '/' {
        cat(dir, file)
    } else {
        cat3(dir, "/", file)
    }
}

/// Computes [`vec_helper_path`].
pub fn vec_helper_file(dir: &str, class_name: &str) -> (r: String)
    ensures
        r@ == vec_helper_path(dir@, class_name@),
{
    let file = cat3("RustForeignVec", class_name, ".h");
    assert(file@ == vec_wrapper_type(class_name@) + ".h"@);
    join_dir(dir, file.as_str())
}

/// A helper header to write: it declares the vector wrapper type and its
/// deallocation function.
#[derive(Debug)]
pub struct VecHelperHeader {
    pub path: String,
    pub wrapper_type: String,
    pub free_func: String,
    pub class_name: String,
}

/// A native function to compile with the user's source: it checks the
/// element stride against the size of `self_type` and frees the vector.
#[derive(Debug)]
pub struct DeallocFragment {
    pub func_name: String,
    pub self_type: String,
}

/// What one generation run has produced so far.
#[derive(Debug)]
pub struct GenerationContext {
    /// Paths of the helper files already produced; no path twice.
    pub generated_helper_files: Vec<String>,
    /// Helper headers, in the order in which they were produced.
    pub helper_headers: Vec<VecHelperHeader>,
    /// Native code waiting to be compiled, in order.
    pub native_code: Vec<DeallocFragment>,
}

/// The contents of a [`GenerationContext`].
pub ghost struct RunRecord {
    pub generated: Seq<Seq<char>>,
    pub headers: Seq<(Seq<char>, Seq<char>, Seq<char>, Seq<char>)>,
    pub fragments: Seq<(Seq<char>, Seq<char>)>,
}

impl View for GenerationContext {
    type V = RunRecord;

    open spec fn view(&self) -> RunRecord {
        RunRecord {
            generated: self.generated_helper_files@.map_values(|p: String| p@),
            headers: self.helper_headers@.map_values(
                |h: VecHelperHeader| (h.path@, h.wrapper_type@, h.free_func@, h.class_name@),
            ),
            fragments: self.native_code@.map_values(
                |f: DeallocFragment| (f.func_name@, f.self_type@),
            ),
        }
    }
}

impl RunRecord {
    /// No helper path is recorded twice.
    pub open spec fn wf(self) -> bool {
        self.generated.no_duplicates()
    }
}

/// The record after the vector wrapper of class `c` was asked for: the
/// header and the native fragment are produced once per path.
pub open spec fn with_vec_helper(rec: RunRecord, cfg: DialectConfig, c: ExportedClassInfo) -> RunRecord {
    let path = vec_helper_path(cfg.output_dir@, c.name@);
    if rec.generated.contains(path) {
        rec
    } else {
        RunRecord {
            generated: rec.generated.push(path),
            headers: rec.headers.push(
                (path, vec_wrapper_type(c.name@), vec_free_func(c.name@), c.name@),
            ),
            fragments: rec.fragments.push((vec_free_func(c.name@), c.self_type@)),
        }
    }
}

/// Producing a vector wrapper keeps every recorded path unique.
pub proof fn lemma_with_vec_helper_wf(rec: RunRecord, cfg: DialectConfig, c: ExportedClassInfo)
    requires
        rec.wf(),
    ensures
        with_vec_helper(rec, cfg, c).wf(),
{
}

impl GenerationContext {
    /// The record of a run that has produced nothing yet.
    pub fn new() -> (r: GenerationContext)
        ensures
            r@.generated == Seq::<Seq<char>>::empty(),
            r@.headers.len() == 0,
            r@.fragments.len() == 0,
            r@.wf(),
    {
        let r = GenerationContext {
            generated_helper_files: Vec::new(),
            helper_headers: Vec::new(),
            native_code: Vec::new(),
        };
        assert(r@.generated =~= Seq::<Seq<char>>::empty());
        r
    }

    /// Whether `path` was already produced in this run.
    pub fn is_generated(&self, path: &String) -> (r: bool)
        ensures
            r == self@.generated.contains(path@),
    {
        let mut i: usize = 0;
        while i < self.generated_helper_files.len()
            invariant
                i <= self.generated_helper_files.len(),
                forall|j: int| 0 <= j < i ==> self@.generated[j] != path@,
            decreases self.generated_helper_files.len() - i,
        {
            if self.generated_helper_files[i] == *path {
                assert(self@.generated[i as int] == path@);
                return true;
            }
            i = i + 1;
        }
        false
    }

    /// Produces the vector wrapper of class `c` unless this run already did.
    pub fn add_vec_helper(&mut self, cfg: &DialectConfig, c: &ExportedClassInfo)
        ensures
            final(self)@ == with_vec_helper(old(self)@, *cfg, *c),
            old(self)@.wf() ==> final(self)@.wf(),
    {
        let path = vec_helper_file(cfg.output_dir.as_str(), c.name.as_str());
        if self.is_generated(&path) {
            return;
        }
        let wrapper_type = vec_wrapper_type_name(c.name.as_str());
        let free_func = vec_free_func_name(c.name.as_str());
        let ghost old_rec = self@;
        self.helper_headers.push(
            VecHelperHeader {
                path: path.clone(),
                wrapper_type,
                free_func: free_func.clone(),
                class_name: c.name.clone(),
            },
        );
        self.native_code.push(DeallocFragment { func_name: free_func, self_type: c.self_type.clone() });
        self.generated_helper_files.push(path);
        let ghost want = with_vec_helper(old_rec, *cfg, *c);
        assert(self@.generated =~= want.generated);
        assert(self@.headers =~= want.headers);
        assert(self@.fragments =~= want.fragments);
    }
}

} // verus!
