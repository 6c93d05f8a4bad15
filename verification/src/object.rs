//! The erased object handle and the constructor registry.
//!
//! The store knows an object only by its typename and metadata tree;
//! callers need capability-specific access.  The bridge is a closed
//! tagged union of the concrete kinds: construction dispatches on the
//! canonical typename, and downcasting (see the tensor module) is an
//! explicit runtime check against the tag, never an unchecked cast.
//!
//! The set of registered kinds is fixed before concurrent use begins
//! and is read-only afterwards; lookups pay no locking cost.

use vstd::prelude::*;

use crate::dataframe::DataFrame;
use crate::meta::{lookup_field, lookup_member, MetaValueV, ObjectMeta, ObjectMetaV};
use crate::status::{StatusCode, VineyardError};
use crate::tensor::{Int32Tensor, Int64Tensor};
use crate::text::dec_str;

verus! {

/// The canonical typename of 32-bit integer tensors.
pub open spec fn int32_tensor_typename() -> Seq<char> {
    "vineyard::Tensor<int32>"@
}

/// The canonical typename of 64-bit integer tensors.
pub open spec fn int64_tensor_typename() -> Seq<char> {
    "vineyard::Tensor<int64>"@
}

/// The canonical typename of dataframes.
pub open spec fn dataframe_typename() -> Seq<char> {
    "vineyard::DataFrame"@
}

/// The field naming a dataframe's declared child count.
pub open spec fn df_size_key() -> Seq<char> {
    "__values_-size"@
}

/// The name under which a dataframe's child at a given index is stored.
pub open spec fn df_member_key(i: int) -> Seq<char> {
    "__values_"@ + dec_str(i as nat) + "_"@
}

/// An object held only by its capability, not its concrete kind.
#[derive(Debug)]
pub enum ObjectHandle {
    Int32Tensor(Int32Tensor),
    Int64Tensor(Int64Tensor),
    DataFrame(DataFrame),
}

/// The metadata model of the object behind an erased handle.
pub open spec fn handle_meta_v(h: ObjectHandle) -> ObjectMetaV {
    match h {
        ObjectHandle::Int32Tensor(t) => t.meta@,
        ObjectHandle::Int64Tensor(t) => t.meta@,
        ObjectHandle::DataFrame(d) => d.meta@,
    }
}

/// Whether a typename has a registered constructor.
pub open spec fn spec_registered(tn: Seq<char>) -> bool {
    ||| tn == int32_tensor_typename()
    ||| tn == int64_tensor_typename()
    ||| tn == dataframe_typename()
}

/// Whether a metadata tree describes an object that construction
/// accepts: a registered typename, and, for a dataframe, a declared
/// child count with a constructible child under each indexed name.
pub open spec fn spec_constructible(v: ObjectMetaV) -> bool
    decreases v, 3int, 0int,
{
    match v.typename {
        None => false,
        Some(tn) => if tn == int32_tensor_typename() || tn == int64_tensor_typename() {
            true
        } else if tn == dataframe_typename() {
            spec_df_members_ok(v)
        } else {
            false
        },
    }
}

/// The dataframe part of [`spec_constructible`]: the declared count is
/// present and numeric, and each indexed child exists and is itself
/// constructible.
pub open spec fn spec_df_members_ok(v: ObjectMetaV) -> bool
    decreases v, 2int, 0int,
{
    match lookup_field(v.fields, df_size_key()) {
        Some(MetaValueV::U64(n)) => spec_df_children_ok_upto(v, n as int),
        _ => false,
    }
}

/// The children at indices below `j` are all present and constructible.
pub open spec fn spec_df_children_ok_upto(v: ObjectMetaV, j: int) -> bool
    decreases v, 1int, j,
{
    if j <= 0 {
        true
    } else {
        spec_df_children_ok_upto(v, j - 1) && spec_df_child_ok(v, j - 1)
    }
}

/// The child at one index of a dataframe: present under its indexed
/// name and constructible.
pub open spec fn spec_df_child_ok(v: ObjectMetaV, i: int) -> bool
    decreases v, 0int, 0int,
{
    exists|k: int|
        0 <= k < v.members.len() && lookup_member(v.members, df_member_key(i)) == Some(
            v.members[k].meta,
        ) && spec_constructible(v.members[k].meta)
}

/// From the dataframe predicate, each declared child is present and
/// constructible.
pub proof fn lemma_df_children_upto_elim(v: ObjectMetaV, j: int, i: int)
    requires
        spec_df_children_ok_upto(v, j),
        0 <= i < j,
    ensures
        spec_df_child_ok(v, i),
    decreases j,
{
    if i < j - 1 {
        lemma_df_children_upto_elim(v, j - 1, i);
    }
}

pub proof fn lemma_df_members_ok_child(v: ObjectMetaV, n: u64, i: int)
    requires
        spec_df_members_ok(v),
        lookup_field(v.fields, df_size_key()) == Some(MetaValueV::U64(n)),
        0 <= i < n,
    ensures
        spec_df_child_ok(v, i),
{
    lemma_df_children_upto_elim(v, n as int, i);
}

/// The dataframe predicate follows from a numeric declared count and a
/// constructible child at each index.
pub proof fn lemma_df_children_upto_intro(v: ObjectMetaV, j: int)
    requires
        forall|i: int| 0 <= i < j ==> #[trigger] spec_df_child_ok(v, i),
    ensures
        spec_df_children_ok_upto(v, j),
    decreases j,
{
    if j > 0 {
        lemma_df_children_upto_intro(v, j - 1);
        assert(spec_df_child_ok(v, j - 1));
    }
}

pub proof fn lemma_df_members_ok_intro(v: ObjectMetaV, n: u64)
    requires
        lookup_field(v.fields, df_size_key()) == Some(MetaValueV::U64(n)),
        forall|i: int| 0 <= i < n ==> #[trigger] spec_df_child_ok(v, i),
    ensures
        spec_df_members_ok(v),
{
    lemma_df_children_upto_intro(v, n as int);
}

impl ObjectHandle {
    /// The metadata of the object behind the handle.
    pub fn meta(&self) -> (r: &ObjectMeta)
        ensures
            r@ == handle_meta_v(*self),
    {
        match self {
            ObjectHandle::Int32Tensor(t) => &t.meta,
            ObjectHandle::Int64Tensor(t) => &t.meta,
            ObjectHandle::DataFrame(d) => &d.meta,
        }
    }
}

/// Whether construction knows the given typename.
pub fn has_registered_type(typename: &str) -> (r: bool)
    ensures
        r == spec_registered(typename@),
{
    let tn = String::from_str(typename);
    tn.eq(&String::from_str("vineyard::Tensor<int32>")) || tn.eq(
        &String::from_str("vineyard::Tensor<int64>"),
    ) || tn.eq(&String::from_str("vineyard::DataFrame"))
}

/// Constructs the concrete kind named by the tree's typename and hands
/// it back behind an erased handle.  Succeeds exactly on constructible
/// trees; a tree without a typename reports `MetaTreeTypeNotExists`,
/// and an unregistered typename reports `NotImplemented`.
pub fn construct_object(meta: &ObjectMeta) -> (r: Result<ObjectHandle, VineyardError>)
    ensures
        r matches Ok(h) ==> spec_constructible(meta@) && handle_meta_v(h) == meta@,
        r is Ok <==> spec_constructible(meta@),
        meta@.typename is None ==> (r matches Err(e) && e.code == StatusCode::MetaTreeTypeNotExists),
        meta@.typename matches Some(t) ==> (!spec_registered(t) ==> (r matches Err(e) && e.code
            == StatusCode::NotImplemented && e.message@
            == "no registered constructor for typename: "@ + t)),
        meta@.typename matches Some(t) ==> (t == int32_tensor_typename() ==> (r matches Ok(h)
            && h is Int32Tensor)),
        meta@.typename matches Some(t) ==> (t == int64_tensor_typename() ==> (r matches Ok(h)
            && h is Int64Tensor)),
        meta@.typename matches Some(t) ==> ((t == dataframe_typename() && spec_df_members_ok(
            meta@,
        )) ==> (r matches Ok(h) && h is DataFrame)),
    decreases *meta, 1int,
{
    proof {
        reveal_strlit("vineyard::Tensor<int32>");
        reveal_strlit("vineyard::Tensor<int64>");
        reveal_strlit("vineyard::DataFrame");
        assert(int32_tensor_typename()[20] != int64_tensor_typename()[20]);
        assert(int32_tensor_typename() != int64_tensor_typename());
        assert(dataframe_typename().len() != int32_tensor_typename().len());
        assert(dataframe_typename().len() != int64_tensor_typename().len());
    }
    let tn = match meta.get_typename() {
        Ok(t) => t,
        Err(e) => {
            return Err(e);
        },
    };
    if tn.eq(&String::from_str("vineyard::Tensor<int32>")) {
        match Int32Tensor::construct(meta) {
            Ok(t) => Ok(ObjectHandle::Int32Tensor(t)),
            Err(e) => Err(e),
        }
    } else if tn.eq(&String::from_str("vineyard::Tensor<int64>")) {
        match Int64Tensor::construct(meta) {
            Ok(t) => Ok(ObjectHandle::Int64Tensor(t)),
            Err(e) => Err(e),
        }
    } else if tn.eq(&String::from_str("vineyard::DataFrame")) {
        match DataFrame::construct(meta) {
            Ok(d) => Ok(ObjectHandle::DataFrame(d)),
            Err(e) => Err(e),
        }
    } else {
        Err(
            VineyardError::not_implemented(
                String::from_str("no registered constructor for typename: ").concat(
                    tn.as_str(),
                ).as_str(),
            ),
        )
    }
}

} // verus!
