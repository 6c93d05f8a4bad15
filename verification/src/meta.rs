//! The client-side snapshot of one node of the remote metadata tree:
//! a typename, named scalar and string fields, and named child nodes.
//!
//! A snapshot is populated once, when fetched or re-parsed, and is
//! treated as immutable by consumers; no object mutates another
//! object's metadata.  Lookups are by name; the first entry with a
//! given name is authoritative.  The mathematical model of a node is
//! [`ObjectMetaV`], reached through the node's view.

use vstd::prelude::*;

use crate::status::{StatusCode, VineyardError};

verus! {

/// A scalar or string field value of a metadata node.
#[derive(Debug)]
pub enum MetaValue {
    U64(u64),
    Text(String),
}

/// A named field of a metadata node.
#[derive(Debug)]
pub struct MetaField {
    pub name: String,
    pub value: MetaValue,
}

/// A named child node of a metadata node.
#[derive(Debug)]
pub struct MetaMember {
    pub name: String,
    pub meta: ObjectMeta,
}

/// One node of the metadata tree.
#[derive(Debug)]
pub struct ObjectMeta {
    pub typename: Option<String>,
    pub fields: Vec<MetaField>,
    pub members: Vec<MetaMember>,
}

/// The model of a field value.
#[verifier::ext_equal]
pub enum MetaValueV {
    U64(u64),
    Text(Seq<char>),
}

/// The model of a named field.
#[verifier::ext_equal]
pub struct MetaFieldV {
    pub name: Seq<char>,
    pub value: MetaValueV,
}

/// The model of a named child node.
#[verifier::ext_equal]
pub struct MetaMemberV {
    pub name: Seq<char>,
    pub meta: ObjectMetaV,
}

/// The model of a metadata node: what a node is mathematically,
/// independent of how the snapshot stores it.
#[verifier::ext_equal]
pub struct ObjectMetaV {
    pub typename: Option<Seq<char>>,
    pub fields: Seq<MetaFieldV>,
    pub members: Seq<MetaMemberV>,
}

pub open spec fn value_view(v: MetaValue) -> MetaValueV {
    match v {
        MetaValue::U64(u) => MetaValueV::U64(u),
        MetaValue::Text(s) => MetaValueV::Text(s@),
    }
}

pub open spec fn field_view(f: MetaField) -> MetaFieldV {
    MetaFieldV { name: f.name@, value: value_view(f.value) }
}

/// The model of an empty node.
pub open spec fn empty_meta_v() -> ObjectMetaV {
    ObjectMetaV { typename: None, fields: Seq::empty(), members: Seq::empty() }
}

/// The model of a snapshot node.
pub open spec fn meta_view(m: ObjectMeta) -> ObjectMetaV
    decreases m,
{
    ObjectMetaV {
        typename: match m.typename {
            Some(t) => Some(t@),
            None => None,
        },
        fields: Seq::new(m.fields@.len(), |k: int| field_view(m.fields@[k])),
        members: Seq::new(
            m.members@.len(),
            |k: int|
                if 0 <= k < m.members@.len() {
                    MetaMemberV { name: m.members@[k].name@, meta: meta_view(m.members@[k].meta) }
                } else {
                    MetaMemberV { name: Seq::empty(), meta: empty_meta_v() }
                },
        ),
    }
}

impl View for ObjectMeta {
    type V = ObjectMetaV;

    open spec fn view(&self) -> ObjectMetaV {
        meta_view(*self)
    }
}

/// The value of the first field with the given name, if any.
pub open spec fn lookup_field(fields: Seq<MetaFieldV>, name: Seq<char>) -> Option<MetaValueV>
    decreases fields.len(),
{
    if fields.len() == 0 {
        None
    } else if fields[0].name == name {
        Some(fields[0].value)
    } else {
        lookup_field(fields.drop_first(), name)
    }
}

/// The first child node with the given name, if any.
pub open spec fn lookup_member(members: Seq<MetaMemberV>, name: Seq<char>) -> Option<ObjectMetaV>
    decreases members.len(),
{
    if members.len() == 0 {
        None
    } else if members[0].name == name {
        Some(members[0].meta)
    } else {
        lookup_member(members.drop_first(), name)
    }
}

impl ObjectMeta {
    /// A node with no typename, no fields and no children.
    pub fn empty() -> (m: ObjectMeta)
        ensures
            m@ == empty_meta_v(),
    {
        let m = ObjectMeta { typename: None, fields: Vec::new(), members: Vec::new() };
        proof {
            assert(m.fields@.len() == 0);
            assert(m.members@.len() == 0);
            assert(m@.typename == empty_meta_v().typename);
            assert(m@.fields =~= empty_meta_v().fields);
            assert(m@.members =~= empty_meta_v().members);
            assert(m@ =~~= empty_meta_v());
        }
        m
    }

    /// Declares the node's typename, replacing any earlier one.
    pub fn set_typename(&mut self, typename: &str)
        ensures
            final(self)@ == (ObjectMetaV { typename: Some(typename@), ..old(self)@ }),
    {
        self.typename = Some(String::from_str(typename));
        proof {
            assert(final(self)@ =~~= (ObjectMetaV { typename: Some(typename@), ..old(self)@ }));
        }
    }

    /// Appends a numeric field.
    pub fn add_u64(&mut self, name: &str, value: u64)
        ensures
            final(self)@ == (ObjectMetaV {
                fields: old(self)@.fields.push(
                    MetaFieldV { name: name@, value: MetaValueV::U64(value) },
                ),
                ..old(self)@
            }),
    {
        self.fields.push(MetaField { name: String::from_str(name), value: MetaValue::U64(value) });
        proof {
            assert(final(self)@ =~~= (ObjectMetaV {
                fields: old(self)@.fields.push(
                    MetaFieldV { name: name@, value: MetaValueV::U64(value) },
                ),
                ..old(self)@
            }));
        }
    }

    /// Appends a string field.
    pub fn add_string(&mut self, name: &str, value: &str)
        ensures
            final(self)@ == (ObjectMetaV {
                fields: old(self)@.fields.push(
                    MetaFieldV { name: name@, value: MetaValueV::Text(value@) },
                ),
                ..old(self)@
            }),
    {
        self.fields.push(
            MetaField {
                name: String::from_str(name),
                value: MetaValue::Text(String::from_str(value)),
            },
        );
        proof {
            assert(final(self)@ =~~= (ObjectMetaV {
                fields: old(self)@.fields.push(
                    MetaFieldV { name: name@, value: MetaValueV::Text(value@) },
                ),
                ..old(self)@
            }));
        }
    }

    /// Appends a named child node.
    pub fn add_member(&mut self, name: &str, meta: ObjectMeta)
        ensures
            final(self)@ == (ObjectMetaV {
                members: old(self)@.members.push(MetaMemberV { name: name@, meta: meta@ }),
                ..old(self)@
            }),
    {
        self.members.push(MetaMember { name: String::from_str(name), meta });
        proof {
            let pushed = MetaMemberV { name: name@, meta: meta@ };
            assert forall|k: int| 0 <= k < self@.members.len() implies self@.members[k] == old(
                self,
            )@.members.push(pushed)[k] by {
                if k < old(self)@.members.len() {
                    assert(self.members@[k] == old(self).members@[k]);
                } else {
                    assert(self.members@[k].meta == meta);
                }
            }
            assert(self@.members =~= old(self)@.members.push(pushed));
            assert(self@.fields =~= old(self)@.fields);
            assert(self@ =~~= (ObjectMetaV {
                members: old(self)@.members.push(pushed),
                ..old(self)@
            }));
        }
    }

    /// A structurally equal copy of the node.
    pub fn deep_copy(&self) -> (r: ObjectMeta)
        ensures
            r@ == self@,
        decreases *self,
    {
        let typename: Option<String> = match &self.typename {
            Some(t) => Some(t.clone()),
            None => None,
        };
        let mut fields: Vec<MetaField> = Vec::new();
        let mut i: usize = 0;
        while i < self.fields.len()
            invariant
                i <= self.fields@.len(),
                fields@.len() == i,
                forall|k: int| 0 <= k < i ==> fields@[k] == self.fields@[k],
            decreases self.fields@.len() - i,
        {
            let f = &self.fields[i];
            let value = match &f.value {
                MetaValue::U64(u) => MetaValue::U64(*u),
                MetaValue::Text(t) => MetaValue::Text(t.clone()),
            };
            fields.push(MetaField { name: f.name.clone(), value });
            i = i + 1;
        }
        let mut members: Vec<MetaMember> = Vec::new();
        let mut j: usize = 0;
        while j < self.members.len()
            invariant
                j <= self.members@.len(),
                members@.len() == j,
                forall|k: int|
                    0 <= k < j ==> members@[k].name@ == self.members@[k].name@ && meta_view(
                        members@[k].meta,
                    ) == meta_view(self.members@[k].meta),
            decreases self.members@.len() - j,
        {
            let mm = &self.members[j];
            let copy = mm.meta.deep_copy();
            members.push(MetaMember { name: mm.name.clone(), meta: copy });
            j = j + 1;
        }
        let r = ObjectMeta { typename, fields, members };
        proof {
            assert(r@.fields =~~= self@.fields);
            assert(r@.members =~~= self@.members);
            assert(r@ =~~= self@);
        }
        r
    }

    /// The node's typename; fails with `MetaTreeTypeNotExists` when none
    /// was declared.
    pub fn get_typename(&self) -> (r: Result<String, VineyardError>)
        ensures
            self@.typename matches Some(t) ==> r matches Ok(s) && s@ == t,
            self@.typename is None ==> (r matches Err(e) && e.code
                == StatusCode::MetaTreeTypeNotExists && e.message@
                == "the metadata tree declares no typename"@),
    {
        match &self.typename {
            Some(t) => Ok(t.clone()),
            None => Err(
                VineyardError::meta_tree_type_not_exists("the metadata tree declares no typename"),
            ),
        }
    }

    /// The numeric field with the given name; fails with
    /// `MetaTreeNameNotExists` when the name is absent and with
    /// `MetaTreeTypeInvalid` when the field holds a string instead.
    pub fn get_u64(&self, name: &str) -> (r: Result<u64, VineyardError>)
        ensures
            lookup_field(self@.fields, name@) matches Some(MetaValueV::U64(u)) ==> r matches Ok(ru)
                && ru == u,
            lookup_field(self@.fields, name@) matches Some(MetaValueV::Text(_)) ==> r matches Err(e)
                && e.code == StatusCode::MetaTreeTypeInvalid && e.message@
                == "field is not convertible to an unsigned integer: "@ + name@,
            lookup_field(self@.fields, name@) is None ==> (r matches Err(e) && e.code
                == StatusCode::MetaTreeNameNotExists && e.message@ == "no such field: "@ + name@),
    {
        let key = String::from_str(name);
        let n = self.fields.len();
        let mut i: usize = 0;
        proof {
            assert(self@.fields.skip(0) =~= self@.fields);
        }
        while i < n
            invariant
                n == self.fields@.len(),
                self@.fields.len() == n,
                i <= n,
                key@ == name@,
                lookup_field(self@.fields.skip(i as int), name@) == lookup_field(
                    self@.fields,
                    name@,
                ),
            decreases n - i,
        {
            proof {
                assert(self@.fields.skip(i as int)[0] == self@.fields[i as int]);
                assert(self@.fields.skip(i as int).drop_first() =~= self@.fields.skip(
                    i as int + 1,
                ));
            }
            if self.fields[i].name.eq(&key) {
                match &self.fields[i].value {
                    MetaValue::U64(u) => {
                        return Ok(*u);
                    },
                    MetaValue::Text(_) => {
                        return Err(
                            VineyardError::meta_tree_type_invalid(
                                String::from_str(
                                    "field is not convertible to an unsigned integer: ",
                                ).concat(name).as_str(),
                            ),
                        );
                    },
                }
            }
            i = i + 1;
        }
        proof {
            assert(self@.fields.skip(n as int) =~= Seq::<MetaFieldV>::empty());
        }
        Err(
            VineyardError::meta_tree_name_not_exists(
                String::from_str("no such field: ").concat(name).as_str(),
            ),
        )
    }

    /// The string field with the given name; fails with
    /// `MetaTreeNameNotExists` when the name is absent and with
    /// `MetaTreeTypeInvalid` when the field holds a number instead.
    pub fn get_string(&self, name: &str) -> (r: Result<String, VineyardError>)
        ensures
            lookup_field(self@.fields, name@) matches Some(MetaValueV::Text(t)) ==> r matches Ok(s)
                && s@ == t,
            lookup_field(self@.fields, name@) matches Some(MetaValueV::U64(_)) ==> r matches Err(e)
                && e.code == StatusCode::MetaTreeTypeInvalid && e.message@
                == "field is not convertible to a string: "@ + name@,
            lookup_field(self@.fields, name@) is None ==> (r matches Err(e) && e.code
                == StatusCode::MetaTreeNameNotExists && e.message@ == "no such field: "@ + name@),
    {
        let key = String::from_str(name);
        let n = self.fields.len();
        let mut i: usize = 0;
        proof {
            assert(self@.fields.skip(0) =~= self@.fields);
        }
        while i < n
            invariant
                n == self.fields@.len(),
                self@.fields.len() == n,
                i <= n,
                key@ == name@,
                lookup_field(self@.fields.skip(i as int), name@) == lookup_field(
                    self@.fields,
                    name@,
                ),
            decreases n - i,
        {
            proof {
                assert(self@.fields.skip(i as int)[0] == self@.fields[i as int]);
                assert(self@.fields.skip(i as int).drop_first() =~= self@.fields.skip(
                    i as int + 1,
                ));
            }
            if self.fields[i].name.eq(&key) {
                match &self.fields[i].value {
                    MetaValue::Text(t) => {
                        return Ok(t.clone());
                    },
                    MetaValue::U64(_) => {
                        return Err(
                            VineyardError::meta_tree_type_invalid(
                                String::from_str("field is not convertible to a string: ").concat(
                                    name,
                                ).as_str(),
                            ),
                        );
                    },
                }
            }
            i = i + 1;
        }
        proof {
            assert(self@.fields.skip(n as int) =~= Seq::<MetaFieldV>::empty());
        }
        Err(
            VineyardError::meta_tree_name_not_exists(
                String::from_str("no such field: ").concat(name).as_str(),
            ),
        )
    }

    /// The index of the first child with the given name, if any.
    pub fn find_member_index(&self, name: &str) -> (r: Option<usize>)
        ensures
            r matches Some(k) ==> k < self.members@.len() && self@.members[k as int].name == name@
                && lookup_member(self@.members, name@) == Some(self@.members[k as int].meta),
            r is None ==> lookup_member(self@.members, name@) is None,
    {
        let key = String::from_str(name);
        let n = self.members.len();
        let mut i: usize = 0;
        proof {
            assert(self@.members.skip(0) =~= self@.members);
        }
        while i < n
            invariant
                n == self.members@.len(),
                self@.members.len() == n,
                i <= n,
                key@ == name@,
                lookup_member(self@.members.skip(i as int), name@) == lookup_member(
                    self@.members,
                    name@,
                ),
                forall|k: int| 0 <= k < i ==> self@.members[k].name != name@,
            decreases n - i,
        {
            proof {
                assert(self@.members.skip(i as int)[0] == self@.members[i as int]);
                assert(self@.members.skip(i as int).drop_first() =~= self@.members.skip(
                    i as int + 1,
                ));
            }
            if self.members[i].name.eq(&key) {
                return Some(i);
            }
            i = i + 1;
        }
        proof {
            assert(self@.members.skip(n as int) =~= Seq::<MetaMemberV>::empty());
        }
        None
    }

    /// The child node with the given name, as a copy; fails with
    /// `MetaTreeSubtreeNotExists` when the child is absent.
    pub fn get_member(&self, name: &str) -> (r: Result<ObjectMeta, VineyardError>)
        ensures
            lookup_member(self@.members, name@) matches Some(m) ==> r matches Ok(rm) && rm@ == m,
            lookup_member(self@.members, name@) is None ==> (r matches Err(e) && e.code
                == StatusCode::MetaTreeSubtreeNotExists && e.message@ == "no such member: "@
                + name@),
    {
        match self.find_member_index(name) {
            Some(k) => Ok(self.members[k].meta.deep_copy()),
            None => Err(
                VineyardError::meta_tree_subtree_not_exists(
                    String::from_str("no such member: ").concat(name).as_str(),
                ),
            ),
        }
    }

    /// The declared number of child nodes.
    pub fn num_members(&self) -> (n: usize)
        ensures
            n == self@.members.len(),
    {
        self.members.len()
    }
}

} // verus!
