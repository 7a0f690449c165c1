//! The conversion registry: exported classes and enums, ABI base types by
//! name, and the registered conversions in each direction.
use vstd::prelude::*;

use crate::types::{Direction, TypeDescriptor};

verus! {

/// An ABI-level (C-compatible) type name and the native type behind it.
#[derive(Debug)]
pub struct ForeignBaseType {
    pub name: String,
    pub native: String,
}

/// A source type exposed to the foreign side as an opaque object.
#[derive(Debug)]
pub struct ExportedClassInfo {
    /// The name the foreign side sees.
    pub name: String,
    /// The native (ABI-level) backing type's name.
    pub c_type: String,
    /// The normalized text of the source type.
    pub self_type: String,
}

/// An exported enumeration.
#[derive(Debug)]
pub struct ExportedEnumInfo {
    /// The name the foreign side sees.
    pub name: String,
    /// The normalized text of the source type.
    pub self_type: String,
}

/// A conversion, known to the registry, from a source type to a base type.
#[derive(Debug)]
pub struct RegisteredConversion {
    /// The normalized text of the source type.
    pub rust_type: String,
    pub base: ForeignBaseType,
}

/// Everything the resolution engine may look up. Where a key occurs more
/// than once, the first entry wins.
#[derive(Debug)]
pub struct ConversionRegistry {
    pub classes: Vec<ExportedClassInfo>,
    pub enums: Vec<ExportedEnumInfo>,
    pub base_types: Vec<ForeignBaseType>,
    pub incoming: Vec<RegisteredConversion>,
    pub outgoing: Vec<RegisteredConversion>,
}

impl ForeignBaseType {
    /// A field-for-field copy.
    pub fn duplicate(&self) -> (r: ForeignBaseType)
        ensures
            r == *self,
    {
        ForeignBaseType { name: self.name.clone(), native: self.native.clone() }
    }
}

impl ExportedClassInfo {
    /// A field-for-field copy.
    pub fn duplicate(&self) -> (r: ExportedClassInfo)
        ensures
            r == *self,
    {
        ExportedClassInfo {
            name: self.name.clone(),
            c_type: self.c_type.clone(),
            self_type: self.self_type.clone(),
        }
    }
}

impl ExportedEnumInfo {
    /// A field-for-field copy.
    pub fn duplicate(&self) -> (r: ExportedEnumInfo)
        ensures
            r == *self,
    {
        ExportedEnumInfo { name: self.name.clone(), self_type: self.self_type.clone() }
    }
}

/// `i` is the first position of `key` in `keys`.
pub open spec fn is_first(keys: Seq<Seq<char>>, key: Seq<char>, i: int) -> bool {
    &&& 0 <= i < keys.len()
    &&& keys[i] == key
    &&& forall|j: int| 0 <= j < i ==> keys[j] != key
}

/// The first position of `key` in `keys`, if any.
pub open spec fn first_index(keys: Seq<Seq<char>>, key: Seq<char>) -> Option<int> {
    if exists|i: int| is_first(keys, key, i) {
        Some(choose|i: int| is_first(keys, key, i))
    } else {
        None
    }
}

proof fn lemma_first_index_at(keys: Seq<Seq<char>>, key: Seq<char>, i: int)
    requires
        is_first(keys, key, i),
    ensures
        first_index(keys, key) == Some(i),
{
    let k = choose|k: int| is_first(keys, key, k);
    assert(is_first(keys, key, k));
    if k < i {
        assert(keys[k] != key);
    } else if i < k {
        assert(keys[i] != key);
    }
}

proof fn lemma_first_index_absent(keys: Seq<Seq<char>>, key: Seq<char>)
    requires
        forall|j: int| 0 <= j < keys.len() ==> keys[j] != key,
    ensures
        first_index(keys, key) == None::<int>,
{
    if exists|i: int| is_first(keys, key, i) {
        let k = choose|k: int| is_first(keys, key, k);
        assert(keys[k] == key);
    }
}

impl ConversionRegistry {
    pub open spec fn class_keys(self) -> Seq<Seq<char>> {
        self.classes@.map_values(|c: ExportedClassInfo| c.self_type@)
    }

    pub open spec fn enum_keys(self) -> Seq<Seq<char>> {
        self.enums@.map_values(|e: ExportedEnumInfo| e.self_type@)
    }

    pub open spec fn base_keys(self) -> Seq<Seq<char>> {
        self.base_types@.map_values(|b: ForeignBaseType| b.name@)
    }

    pub open spec fn conversions(self, dir: Direction) -> Seq<RegisteredConversion> {
        match dir {
            Direction::Incoming => self.incoming@,
            Direction::Outgoing => self.outgoing@,
        }
    }

    pub open spec fn conversion_keys(self, dir: Direction) -> Seq<Seq<char>> {
        self.conversions(dir).map_values(|c: RegisteredConversion| c.rust_type@)
    }

    /// The exported class whose source type is `ty`.
    pub open spec fn class_of(self, ty: TypeDescriptor) -> Option<ExportedClassInfo> {
        match first_index(self.class_keys(), ty.text()) {
            Some(i) => Some(self.classes@[i]),
            None => None,
        }
    }

    /// The exported enum whose source type is `ty`.
    pub open spec fn enum_of(self, ty: TypeDescriptor) -> Option<ExportedEnumInfo> {
        match first_index(self.enum_keys(), ty.text()) {
            Some(i) => Some(self.enums@[i]),
            None => None,
        }
    }

    /// The base type registered under `name`.
    pub open spec fn base_named(self, name: Seq<char>) -> Option<ForeignBaseType> {
        match first_index(self.base_keys(), name) {
            Some(i) => Some(self.base_types@[i]),
            None => None,
        }
    }

    /// The base type that `ty` converts to in direction `dir`.
    pub open spec fn conversion_of(self, ty: TypeDescriptor, dir: Direction) -> Option<
        ForeignBaseType,
    > {
        match first_index(self.conversion_keys(dir), ty.text()) {
            Some(i) => Some(self.conversions(dir)[i].base),
            None => None,
        }
    }

    /// Identifies `ty` as an exported class.
    pub fn classify_as_exported_class(&self, ty: &TypeDescriptor) -> (r: Option<ExportedClassInfo>)
        ensures
            r == self.class_of(*ty),
    {
        let key = ty.normalized_name();
        let mut i: usize = 0;
        while i < self.classes.len()
            invariant
                i <= self.classes.len(),
                key@ == ty.text(),
                forall|j: int| 0 <= j < i ==> self.class_keys()[j] != key@,
            decreases self.classes.len() - i,
        {
            if self.classes[i].self_type == key {
                proof {
                    lemma_first_index_at(self.class_keys(), key@, i as int);
                }
                return Some(self.classes[i].duplicate());
            }
            i = i + 1;
        }
        proof {
            lemma_first_index_absent(self.class_keys(), key@);
        }
        None
    }

    /// Identifies `ty` as an exported enum.
    pub fn classify_as_exported_enum(&self, ty: &TypeDescriptor) -> (r: Option<ExportedEnumInfo>)
        ensures
            r == self.enum_of(*ty),
    {
        let key = ty.normalized_name();
        let mut i: usize = 0;
        while i < self.enums.len()
            invariant
                i <= self.enums.len(),
                key@ == ty.text(),
                forall|j: int| 0 <= j < i ==> self.enum_keys()[j] != key@,
            decreases self.enums.len() - i,
        {
            if self.enums[i].self_type == key {
                proof {
                    lemma_first_index_at(self.enum_keys(), key@, i as int);
                }
                return Some(self.enums[i].duplicate());
            }
            i = i + 1;
        }
        proof {
            lemma_first_index_absent(self.enum_keys(), key@);
        }
        None
    }

    /// Finds the base type registered under `name`.
    pub fn lookup_base_by_name(&self, name: &str) -> (r: Option<ForeignBaseType>)
        ensures
            r == self.base_named(name@),
    {
        let key = String::from_str(name);
        let mut i: usize = 0;
        while i < self.base_types.len()
            invariant
                i <= self.base_types.len(),
                key@ == name@,
                forall|j: int| 0 <= j < i ==> self.base_keys()[j] != key@,
            decreases self.base_types.len() - i,
        {
            if self.base_types[i].name == key {
                proof {
                    lemma_first_index_at(self.base_keys(), key@, i as int);
                }
                return Some(self.base_types[i].duplicate());
            }
            i = i + 1;
        }
        proof {
            lemma_first_index_absent(self.base_keys(), key@);
        }
        None
    }

    /// Finds the registered conversion of `ty` in direction `dir`.
    pub fn lookup_transitive(&self, ty: &TypeDescriptor, dir: Direction) -> (r: Option<
        ForeignBaseType,
    >)
        ensures
            r == self.conversion_of(*ty, dir),
    {
        let key = ty.normalized_name();
        let table = match dir {
            Direction::Incoming => &self.incoming,
            Direction::Outgoing => &self.outgoing,
        };
        assert(table@ == self.conversions(dir));
        let mut i: usize = 0;
        while i < table.len()
            invariant
                i <= table.len(),
                table@ == self.conversions(dir),
                key@ == ty.text(),
                forall|j: int| 0 <= j < i ==> self.conversion_keys(dir)[j] != key@,
            decreases table.len() - i,
        {
            if table[i].rust_type == key {
                proof {
                    lemma_first_index_at(self.conversion_keys(dir), key@, i as int);
                }
                return Some(table[i].base.duplicate());
            }
            i = i + 1;
        }
        proof {
            lemma_first_index_absent(self.conversion_keys(dir), key@);
        }
        None
    }
}

} // verus!
