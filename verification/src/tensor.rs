//! The tensor capability and the downcast protocol.
//!
//! A tensor is held behind an erased [`ObjectHandle`]; the functions
//! here recover the concrete kind with an explicit runtime check, in
//! the three ownership modes: exclusive (boxed), borrowed, and shared
//! (reference-counted).  A failed downcast reports an `Invalid` error
//! and never touches the object.

use std::rc::Rc;

use vstd::prelude::*;

use crate::meta::{ObjectMeta, ObjectMetaV};
use crate::object::{
    handle_meta_v, int32_tensor_typename, int64_tensor_typename, ObjectHandle,
};
use crate::status::{StatusCode, VineyardError};

verus! {

/// The capability shared by every concrete tensor kind: it can be
/// recovered from an erased handle in each ownership mode, and it
/// exposes its metadata back.
pub trait Tensor: Sized {
    /// Whether the handle holds this concrete kind.
    spec fn spec_wraps(h: ObjectHandle) -> bool;

    /// The concrete value behind the handle, when it holds this kind.
    spec fn spec_of(h: ObjectHandle) -> Self;

    /// The model of this value's metadata.
    spec fn vmeta(&self) -> ObjectMetaV;

    /// Recovers the concrete kind from an exclusively owned handle,
    /// returning the handle unchanged when it holds another kind.
    fn take_from(h: ObjectHandle) -> (r: Result<Self, ObjectHandle>)
        ensures
            Self::spec_wraps(h) ==> (r matches Ok(t) && t == Self::spec_of(h)),
            !Self::spec_wraps(h) ==> (r matches Err(h2) && h2 == h),
    ;

    /// Borrows the concrete kind out of an erased handle.
    fn borrow_from(h: &ObjectHandle) -> (r: Option<&Self>)
        ensures
            Self::spec_wraps(*h) ==> (r matches Some(t) && *t == Self::spec_of(*h)),
            !Self::spec_wraps(*h) ==> r is None,
    ;

    /// A structurally equal copy of the concrete kind behind the handle.
    fn duplicate_from(h: &ObjectHandle) -> (r: Option<Self>)
        ensures
            Self::spec_wraps(*h) ==> (r matches Some(t) && t.vmeta() == Self::spec_of(
                *h,
            ).vmeta()),
            !Self::spec_wraps(*h) ==> r is None,
    ;

    /// The metadata this value was constructed from.
    fn meta(&self) -> (r: &ObjectMeta)
        ensures
            r@ == self.vmeta(),
    ;
}

/// A tensor of 32-bit integers.
#[derive(Debug)]
pub struct Int32Tensor {
    pub meta: ObjectMeta,
}

/// A tensor of 64-bit integers.
#[derive(Debug)]
pub struct Int64Tensor {
    pub meta: ObjectMeta,
}

impl Int32Tensor {
    /// Builds the kind from a metadata tree, gated on the canonical
    /// typename: a tree of any other typename is rejected with
    /// `ObjectTypeError`, whatever its other contents.
    pub fn construct(meta: &ObjectMeta) -> (r: Result<Int32Tensor, VineyardError>)
        ensures
            meta@.typename matches Some(t) ==> ((t == int32_tensor_typename() ==> (
            r matches Ok(o) && o.meta@ == meta@)) && (t != int32_tensor_typename() ==> (
            r matches Err(e) && e.code == StatusCode::ObjectTypeError && e.message@
                == "expect typename '"@ + int32_tensor_typename() + "', but got '"@ + t + "'"@))),
            meta@.typename is None ==> (r matches Err(e) && e.code
                == StatusCode::MetaTreeTypeNotExists),
    {
        let tn = match meta.get_typename() {
            Ok(t) => t,
            Err(e) => {
                return Err(e);
            },
        };
        match crate::status::vineyard_assert_typename("vineyard::Tensor<int32>", tn.as_str()) {
            Ok(_) => Ok(Int32Tensor { meta: meta.deep_copy() }),
            Err(e) => Err(e),
        }
    }
}

impl Int64Tensor {
    /// Builds the kind from a metadata tree, gated on the canonical
    /// typename exactly as for [`Int32Tensor::construct`].
    pub fn construct(meta: &ObjectMeta) -> (r: Result<Int64Tensor, VineyardError>)
        ensures
            meta@.typename matches Some(t) ==> ((t == int64_tensor_typename() ==> (
            r matches Ok(o) && o.meta@ == meta@)) && (t != int64_tensor_typename() ==> (
            r matches Err(e) && e.code == StatusCode::ObjectTypeError && e.message@
                == "expect typename '"@ + int64_tensor_typename() + "', but got '"@ + t + "'"@))),
            meta@.typename is None ==> (r matches Err(e) && e.code
                == StatusCode::MetaTreeTypeNotExists),
    {
        let tn = match meta.get_typename() {
            Ok(t) => t,
            Err(e) => {
                return Err(e);
            },
        };
        match crate::status::vineyard_assert_typename("vineyard::Tensor<int64>", tn.as_str()) {
            Ok(_) => Ok(Int64Tensor { meta: meta.deep_copy() }),
            Err(e) => Err(e),
        }
    }
}

impl Tensor for Int32Tensor {
    open spec fn spec_wraps(h: ObjectHandle) -> bool {
        h is Int32Tensor
    }

    open spec fn spec_of(h: ObjectHandle) -> Int32Tensor {
        h->Int32Tensor_0
    }

    open spec fn vmeta(&self) -> ObjectMetaV {
        self.meta@
    }

    fn take_from(h: ObjectHandle) -> (r: Result<Int32Tensor, ObjectHandle>) {
        match h {
            ObjectHandle::Int32Tensor(t) => Ok(t),
            other => Err(other),
        }
    }

    fn borrow_from(h: &ObjectHandle) -> (r: Option<&Int32Tensor>) {
        match h {
            ObjectHandle::Int32Tensor(t) => Some(t),
            _ => None,
        }
    }

    fn duplicate_from(h: &ObjectHandle) -> (r: Option<Int32Tensor>) {
        match h {
            ObjectHandle::Int32Tensor(t) => Some(Int32Tensor { meta: t.meta.deep_copy() }),
            _ => None,
        }
    }

    fn meta(&self) -> (r: &ObjectMeta) {
        &self.meta
    }
}

impl Tensor for Int64Tensor {
    open spec fn spec_wraps(h: ObjectHandle) -> bool {
        h is Int64Tensor
    }

    open spec fn spec_of(h: ObjectHandle) -> Int64Tensor {
        h->Int64Tensor_0
    }

    open spec fn vmeta(&self) -> ObjectMetaV {
        self.meta@
    }

    fn take_from(h: ObjectHandle) -> (r: Result<Int64Tensor, ObjectHandle>) {
        match h {
            ObjectHandle::Int64Tensor(t) => Ok(t),
            other => Err(other),
        }
    }

    fn borrow_from(h: &ObjectHandle) -> (r: Option<&Int64Tensor>) {
        match h {
            ObjectHandle::Int64Tensor(t) => Some(t),
            _ => None,
        }
    }

    fn duplicate_from(h: &ObjectHandle) -> (r: Option<Int64Tensor>) {
        match h {
            ObjectHandle::Int64Tensor(t) => Some(Int64Tensor { meta: t.meta.deep_copy() }),
            _ => None,
        }
    }

    fn meta(&self) -> (r: &ObjectMeta) {
        &self.meta
    }
}

/// Recovers the concrete kind from an exclusively owned erased handle.
/// Succeeds exactly when the handle holds that kind, yielding the very
/// value behind the handle; otherwise reports an `Invalid` error with
/// the fixed downcast-failure message.
pub fn downcast_tensor<T: Tensor>(object: Box<ObjectHandle>) -> (r: Result<
    Box<T>,
    VineyardError,
>)
    ensures
        T::spec_wraps(*object) ==> (r matches Ok(b) && *b == T::spec_of(*object)),
        !T::spec_wraps(*object) ==> (r matches Err(e) && e.code == StatusCode::Invalid
            && e.message@ == "downcast object to tensor failed"@),
{
    match T::take_from(*object) {
        Ok(t) => Ok(Box::new(t)),
        Err(_) => Err(VineyardError::invalid("downcast object to tensor failed")),
    }
}

/// Recovers a borrowed view of the concrete kind.  On a mismatch the
/// error names the object's declared typename; a handle whose tree
/// declares no typename reports `MetaTreeTypeNotExists` instead.
pub fn downcast_tensor_ref<T: Tensor>(object: &ObjectHandle) -> (r: Result<&T, VineyardError>)
    ensures
        T::spec_wraps(*object) ==> (r matches Ok(t) && *t == T::spec_of(*object)),
        handle_meta_v(*object).typename matches Some(t) ==> (!T::spec_wraps(*object) ==> (
        r matches Err(e) && e.code == StatusCode::Invalid && e.message@ == "downcast object '"@ + t
            + "' to tensor failed"@)),
        (!T::spec_wraps(*object) && handle_meta_v(*object).typename is None) ==> (r matches Err(e)
            && e.code == StatusCode::MetaTreeTypeNotExists),
{
    match T::borrow_from(object) {
        Some(t) => Ok(t),
        None => {
            let tn = match object.meta().get_typename() {
                Ok(t) => t,
                Err(e) => {
                    return Err(e);
                },
            };
            Err(
                VineyardError::invalid(
                    String::from_str("downcast object '").concat(tn.as_str()).concat(
                        "' to tensor failed",
                    ).as_str(),
                ),
            )
        },
    }
}

/// Recovers the concrete kind from a shared handle, as a new shared
/// handle to a structurally equal value; the erased handle stays valid.
pub fn downcast_tensor_rc<T: Tensor>(object: Rc<ObjectHandle>) -> (r: Result<
    Rc<T>,
    VineyardError,
>)
    ensures
        T::spec_wraps(*object) ==> (r matches Ok(rc) && (*rc).vmeta() == T::spec_of(
            *object,
        ).vmeta()),
        !T::spec_wraps(*object) ==> (r matches Err(e) && e.code == StatusCode::Invalid
            && e.message@ == "downcast object to tensor failed"@),
{
    match T::duplicate_from(&*object) {
        Some(t) => Ok(Rc::new(t)),
        None => Err(VineyardError::invalid("downcast object to tensor failed")),
    }
}

/// Shared downcasts are idempotent: two downcasts of handles to the
/// same underlying object either both fail or both succeed, and on
/// success they yield structurally equal values.
pub proof fn lemma_shared_downcast_idempotent<T: Tensor>(
    h1: Rc<ObjectHandle>,
    h2: Rc<ObjectHandle>,
    r1: Result<Rc<T>, VineyardError>,
    r2: Result<Rc<T>, VineyardError>,
)
    requires
        *h1 == *h2,
        call_ensures(downcast_tensor_rc::<T>, (h1,), r1),
        call_ensures(downcast_tensor_rc::<T>, (h2,), r2),
    ensures
        r1 is Ok <==> r2 is Ok,
        r1 matches Ok(a) ==> (r2 matches Ok(b) ==> (*a).vmeta() == (*b).vmeta()),
{
}

} // verus!
