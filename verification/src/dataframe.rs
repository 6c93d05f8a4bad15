//! The dataframe kind: a typename-gated wrapper over a metadata tree
//! with a declared count of homogeneous children, each child being a
//! constructible object in its own right (its columns).

use vstd::prelude::*;

use crate::meta::{lookup_field, lookup_member, MetaValueV, ObjectMeta};
use crate::object::{
    construct_object, dataframe_typename, df_member_key, df_size_key, handle_meta_v,
    lemma_df_members_ok_child, lemma_df_members_ok_intro, spec_constructible, spec_df_child_ok,
    spec_df_members_ok, ObjectHandle,
};
use crate::status::{vineyard_assert_typename, StatusCode, VineyardError};
use crate::text::u64_to_string;

verus! {

/// A dataframe: its metadata snapshot and one constructed handle per
/// declared child.
#[derive(Debug)]
pub struct DataFrame {
    pub meta: ObjectMeta,
    pub columns: Vec<ObjectHandle>,
}

impl DataFrame {
    /// Builds a dataframe from a metadata tree.  The first step is the
    /// typename gate: a tree of any other typename is rejected with
    /// `ObjectTypeError`, whatever its other contents.  Then the
    /// declared child count is read, and the child under each indexed
    /// name is constructed; the whole construction fails if any child
    /// does.
    pub fn construct(meta: &ObjectMeta) -> (r: Result<DataFrame, VineyardError>)
        ensures
            r matches Ok(df) ==> meta@.typename == Some(dataframe_typename())
                && spec_df_members_ok(meta@) && df.meta@ == meta@ && (lookup_field(
                meta@.fields,
                df_size_key(),
            ) matches Some(MetaValueV::U64(n)) && df.columns@.len() == n) && forall|j: int|
                0 <= j < df.columns@.len() ==> handle_meta_v(#[trigger] df.columns@[j])
                    == lookup_member(meta@.members, df_member_key(j))->Some_0,
            r is Ok <==> (meta@.typename == Some(dataframe_typename()) && spec_df_members_ok(
                meta@,
            )),
            meta@.typename is None ==> (r matches Err(e) && e.code
                == StatusCode::MetaTreeTypeNotExists),
            meta@.typename matches Some(t) ==> (t != dataframe_typename() ==> (r matches Err(
            e) && e.code == StatusCode::ObjectTypeError && e.message@ == "expect typename '"@
                + dataframe_typename() + "', but got '"@ + t + "'"@)),
        decreases *meta, 0int,
    {
        let tn = match meta.get_typename() {
            Ok(t) => t,
            Err(e) => {
                return Err(e);
            },
        };
        match vineyard_assert_typename("vineyard::DataFrame", tn.as_str()) {
            Ok(_) => {},
            Err(e) => {
                return Err(e);
            },
        }
        let size = match meta.get_u64("__values_-size") {
            Ok(s) => s,
            Err(e) => {
                return Err(e);
            },
        };
        let mut columns: Vec<ObjectHandle> = Vec::new();
        let mut i: u64 = 0;
        while i < size
            invariant
                i <= size,
                columns@.len() == i as int,
                meta@.typename == Some(dataframe_typename()),
                lookup_field(meta@.fields, df_size_key()) == Some(MetaValueV::U64(size)),
                forall|j: int| 0 <= j < i ==> spec_df_child_ok(meta@, j),
                forall|j: int|
                    0 <= j < i ==> handle_meta_v(#[trigger] columns@[j]) == lookup_member(
                        meta@.members,
                        df_member_key(j),
                    )->Some_0,
            decreases size - i,
        {
            let key = String::from_str("__values_").concat(u64_to_string(i).as_str()).concat("_");
            proof {
                assert(key@ == df_member_key(i as int));
            }
            match meta.find_member_index(key.as_str()) {
                None => {
                    proof {
                        assert(!spec_df_child_ok(meta@, i as int));
                        assert(!spec_df_members_ok(meta@)) by {
                            if spec_df_members_ok(meta@) {
                                lemma_df_members_ok_child(meta@, size, i as int);
                            }
                        }
                    }
                    return Err(
                        VineyardError::meta_tree_subtree_not_exists(
                            String::from_str("no such member: ").concat(key.as_str()).as_str(),
                        ),
                    );
                },
                Some(k) => {
                    proof {
                        assert((&meta.members[k as int].meta)@ == meta@.members[k as int].meta);
                    }
                    match construct_object(&meta.members[k].meta) {
                        Ok(h) => {
                            proof {
                                assert(lookup_member(meta@.members, df_member_key(i as int))
                                    == Some(meta@.members[k as int].meta));
                                assert(spec_constructible(meta@.members[k as int].meta));
                                assert(spec_df_child_ok(meta@, i as int));
                            }
                            columns.push(h);
                        },
                        Err(e) => {
                            proof {
                                assert(!spec_df_child_ok(meta@, i as int)) by {
                                    if spec_df_child_ok(meta@, i as int) {
                                        let k2 = choose|k2: int|
                                            0 <= k2 < meta@.members.len() && lookup_member(
                                                meta@.members,
                                                df_member_key(i as int),
                                            ) == Some(meta@.members[k2].meta)
                                                && spec_constructible(meta@.members[k2].meta);
                                        assert(meta@.members[k2].meta == meta@.members[
                                            k as int].meta);
                                    }
                                }
                                assert(!spec_df_members_ok(meta@)) by {
                                    if spec_df_members_ok(meta@) {
                                        lemma_df_members_ok_child(meta@, size, i as int);
                                    }
                                }
                            }
                            return Err(e);
                        },
                    }
                },
            }
            i = i + 1;
        }
        proof {
            lemma_df_members_ok_intro(meta@, size);
        }
        Ok(DataFrame { meta: meta.deep_copy(), columns })
    }
}

} // verus!
