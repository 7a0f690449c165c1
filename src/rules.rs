//! The ordered table of special type shapes: the first that matches decides
//! how a type is resolved.
use vstd::prelude::*;

use crate::registry::ConversionRegistry;
use crate::text::owned;
use crate::types::{Direction, TypeDescriptor};

verus! {

/// The rules, in order of precedence.
#[derive(Clone, Copy, Debug, PartialEq, Eq, Structural)]
pub enum Rule {
    /// An exported enum, in either direction.
    ExportedEnum,
    /// `bool`, in either direction.
    Boolean,
    /// `&C` for an exported class `C`.
    ClassReference,
    /// An exported class by value.
    ClassValue,
    /// `Result<T, E>` as a return value.
    ResultOutgoing,
    /// `Option<T>` as a return value.
    OptionalOutgoing,
    /// `Option<T>` as an argument.
    OptionalIncoming,
    /// `Vec<T>` as a return value.
    SequenceOutgoing,
    /// None of the above: the registry decides.
    Ordinary,
}

/// `ty` is `&C` (not `&mut C`) for an exported class `C`.
pub open spec fn is_class_reference(reg: ConversionRegistry, ty: TypeDescriptor) -> bool {
    match ty {
        TypeDescriptor::Reference(t, m) => !m && reg.class_of(*t) is Some,
        _ => false,
    }
}

/// The first rule that matches `ty` crossing in direction `dir`.
pub open spec fn rule_of(reg: ConversionRegistry, ty: TypeDescriptor, dir: Direction) -> Rule {
    if reg.enum_of(ty) is Some {
        Rule::ExportedEnum
    } else if ty.text() == "bool"@ {
        Rule::Boolean
    } else if is_class_reference(reg, ty) {
        Rule::ClassReference
    } else if reg.class_of(ty) is Some {
        Rule::ClassValue
    } else if dir == Direction::Outgoing && ty is FallibleResult {
        Rule::ResultOutgoing
    } else if ty is Optional {
        if dir == Direction::Outgoing {
            Rule::OptionalOutgoing
        } else {
            Rule::OptionalIncoming
        }
    } else if dir == Direction::Outgoing && ty is Sequence {
        Rule::SequenceOutgoing
    } else {
        Rule::Ordinary
    }
}

/// Picks the rule for `ty` crossing in direction `dir`.
pub fn select_rule(reg: &ConversionRegistry, ty: &TypeDescriptor, dir: Direction) -> (r: Rule)
    ensures
        r == rule_of(*reg, *ty, dir),
{
    if reg.classify_as_exported_enum(ty).is_some() {
        return Rule::ExportedEnum;
    }
    let name = ty.normalized_name();
    if name == owned("bool") {
        return Rule::Boolean;
    }
    if let TypeDescriptor::Reference(t, false) = ty {
        if reg.classify_as_exported_class(t).is_some() {
            return Rule::ClassReference;
        }
    }
    if reg.classify_as_exported_class(ty).is_some() {
        return Rule::ClassValue;
    }
    match ty {
        TypeDescriptor::FallibleResult(_, _) => {
            if dir == Direction::Outgoing {
                return Rule::ResultOutgoing;
            }
        },
        TypeDescriptor::Optional(_) => {
            return if dir == Direction::Outgoing {
                Rule::OptionalOutgoing
            } else {
                Rule::OptionalIncoming
            };
        },
        TypeDescriptor::Sequence(_) => {
            if dir == Direction::Outgoing {
                return Rule::SequenceOutgoing;
            }
        },
        _ => {},
    }
    Rule::Ordinary
}

} // verus!
