use std::rc::Rc;

use vineyard::codec::{parse_meta, serialize_meta};
use vineyard::dataframe::DataFrame;
use vineyard::meta::ObjectMeta;
use vineyard::object::{construct_object, has_registered_type, ObjectHandle};
use vineyard::tensor::{
    downcast_tensor, downcast_tensor_rc, downcast_tensor_ref, Int32Tensor, Int64Tensor, Tensor,
};

fn tensor_meta(typename: &str) -> ObjectMeta {
    let mut m = ObjectMeta::empty();
    m.set_typename(typename);
    m
}

fn dataframe_meta(n: u64) -> ObjectMeta {
    let mut m = ObjectMeta::empty();
    m.set_typename("vineyard::DataFrame");
    m.add_u64("__values_-size", n);
    let mut i = 0u64;
    while i < n {
        let name = format!("__values_{}_", i);
        m.add_member(name.as_str(), tensor_meta("vineyard::Tensor<int32>"));
        i += 1;
    }
    m
}

#[test]
fn meta_getters_report_exact_kinds() {
    let mut m = ObjectMeta::empty();
    assert!(m
        .get_typename()
        .unwrap_err()
        .is_meta_tree_element_not_exists());
    m.set_typename("vineyard::DataFrame");
    assert_eq!(m.get_typename().unwrap().as_str(), "vineyard::DataFrame");
    m.add_u64("rows", 3);
    m.add_string("label", "prices");
    assert_eq!(m.get_u64("rows").unwrap(), 3);
    assert_eq!(m.get_string("label").unwrap().as_str(), "prices");
    let e = m.get_u64("missing").unwrap_err();
    assert!(e.is_meta_tree_element_not_exists());
    assert_eq!(e.message().as_str(), "no such field: missing");
    let e = m.get_u64("label").unwrap_err();
    assert!(e.is_meta_tree_invalid());
    let e = m.get_string("rows").unwrap_err();
    assert!(e.is_meta_tree_invalid());
    let e = m.get_member("child").unwrap_err();
    assert!(e.is_meta_tree_element_not_exists());
    m.add_member("child", tensor_meta("vineyard::Tensor<int64>"));
    let child = m.get_member("child").unwrap();
    assert_eq!(
        child.get_typename().unwrap().as_str(),
        "vineyard::Tensor<int64>"
    );
    assert_eq!(m.num_members(), 1);
}

#[test]
fn construction_is_gated_on_typename() {
    let m = tensor_meta("vineyard::Tensor<int32>");
    assert!(Int32Tensor::construct(&m).is_ok());
    let e = Int64Tensor::construct(&m).unwrap_err();
    assert!(e.is_object_type_error());
    assert_eq!(
        e.message().as_str(),
        "expect typename 'vineyard::Tensor<int64>', but got 'vineyard::Tensor<int32>'"
    );
    // a well-formed dataframe tree still fails tensor construction
    let df = dataframe_meta(2);
    assert!(Int32Tensor::construct(&df).unwrap_err().is_object_type_error());
    // and a tensor tree fails dataframe construction, whatever its fields
    let e = DataFrame::construct(&m).unwrap_err();
    assert!(e.is_object_type_error());
    // a tree without a typename reports the missing element
    let bare = ObjectMeta::empty();
    assert!(Int32Tensor::construct(&bare)
        .unwrap_err()
        .is_meta_tree_element_not_exists());
}

#[test]
fn dataframe_construction_builds_all_columns() {
    let m = dataframe_meta(3);
    let df = DataFrame::construct(&m).unwrap();
    assert_eq!(df.columns.len(), 3);
    // a missing child fails the whole construction
    let mut broken = ObjectMeta::empty();
    broken.set_typename("vineyard::DataFrame");
    broken.add_u64("__values_-size", 2);
    broken.add_member("__values_0_", tensor_meta("vineyard::Tensor<int32>"));
    let e = DataFrame::construct(&broken).unwrap_err();
    assert!(e.is_meta_tree_element_not_exists());
    // a child of unknown kind fails too
    let mut odd = ObjectMeta::empty();
    odd.set_typename("vineyard::DataFrame");
    odd.add_u64("__values_-size", 1);
    odd.add_member("__values_0_", tensor_meta("somewhere::Else"));
    assert!(DataFrame::construct(&odd).unwrap_err().is_not_implemented());
}

#[test]
fn registry_dispatches_on_typename() {
    assert!(has_registered_type("vineyard::Tensor<int32>"));
    assert!(has_registered_type("vineyard::Tensor<int64>"));
    assert!(has_registered_type("vineyard::DataFrame"));
    assert!(!has_registered_type("vineyard::Blob"));

    let h = construct_object(&tensor_meta("vineyard::Tensor<int32>")).unwrap();
    assert!(matches!(h, ObjectHandle::Int32Tensor(_)));
    let h = construct_object(&tensor_meta("vineyard::Tensor<int64>")).unwrap();
    assert!(matches!(h, ObjectHandle::Int64Tensor(_)));
    let h = construct_object(&dataframe_meta(1)).unwrap();
    assert!(matches!(h, ObjectHandle::DataFrame(_)));

    let e = construct_object(&tensor_meta("vineyard::Blob")).unwrap_err();
    assert!(e.is_not_implemented());
    assert_eq!(
        e.message().as_str(),
        "no registered constructor for typename: vineyard::Blob"
    );
    let e = construct_object(&ObjectMeta::empty()).unwrap_err();
    assert!(e.is_meta_tree_element_not_exists());
}

#[test]
fn downcast_to_true_kind_succeeds() {
    let h = construct_object(&tensor_meta("vineyard::Tensor<int32>")).unwrap();
    let t: Box<Int32Tensor> = downcast_tensor::<Int32Tensor>(Box::new(h)).unwrap();
    assert_eq!(
        t.meta().get_typename().unwrap().as_str(),
        "vineyard::Tensor<int32>"
    );
}

#[test]
fn downcast_to_unrelated_kind_fails_invalid() {
    let h = construct_object(&tensor_meta("vineyard::Tensor<int32>")).unwrap();
    let e = downcast_tensor::<Int64Tensor>(Box::new(h)).unwrap_err();
    assert!(e.is_invalid());
    assert_eq!(e.message().as_str(), "downcast object to tensor failed");
}

#[test]
fn downcast_ref_names_the_typename_on_failure() {
    let h = construct_object(&tensor_meta("vineyard::Tensor<int32>")).unwrap();
    let t: &Int32Tensor = downcast_tensor_ref::<Int32Tensor>(&h).unwrap();
    assert_eq!(
        t.meta().get_typename().unwrap().as_str(),
        "vineyard::Tensor<int32>"
    );
    let e = downcast_tensor_ref::<Int64Tensor>(&h).unwrap_err();
    assert!(e.is_invalid());
    assert_eq!(
        e.message().as_str(),
        "downcast object 'vineyard::Tensor<int32>' to tensor failed"
    );
}

#[test]
fn shared_downcast_is_idempotent() {
    let h = Rc::new(construct_object(&tensor_meta("vineyard::Tensor<int64>")).unwrap());
    let a = downcast_tensor_rc::<Int64Tensor>(Rc::clone(&h)).unwrap();
    let b = downcast_tensor_rc::<Int64Tensor>(Rc::clone(&h)).unwrap();
    assert_eq!(
        a.meta().get_typename().unwrap(),
        b.meta().get_typename().unwrap()
    );
    assert!(downcast_tensor_rc::<Int32Tensor>(Rc::clone(&h)).is_err());
}

#[test]
fn serialized_tree_reparses_to_the_same_tree() {
    let m = dataframe_meta(4);
    let tokens = serialize_meta(&m);
    let back = parse_meta(&tokens).unwrap();
    assert_eq!(back.get_typename().unwrap().as_str(), "vineyard::DataFrame");
    assert_eq!(back.get_u64("__values_-size").unwrap(), 4);
    assert_eq!(back.num_members(), 4);
    let mut i = 0u64;
    while i < 4 {
        let name = format!("__values_{}_", i);
        let child = back.get_member(name.as_str()).unwrap();
        assert_eq!(
            child.get_typename().unwrap().as_str(),
            "vineyard::Tensor<int32>"
        );
        i += 1;
    }
    // the re-parsed tree constructs just as the original does
    assert!(construct_object(&back).is_ok());
    // a mangled stream is rejected
    let mut broken = serialize_meta(&m);
    broken.pop();
    assert!(parse_meta(&broken).unwrap_err().is_meta_tree_invalid());
}

#[test]
fn serialization_round_trips_scalar_fields() {
    let mut m = ObjectMeta::empty();
    m.set_typename("vineyard::Tensor<int32>");
    m.add_u64("shape_", 12);
    m.add_string("value_type_", "int32");
    let back = parse_meta(&serialize_meta(&m)).unwrap();
    assert_eq!(back.get_u64("shape_").unwrap(), 12);
    assert_eq!(back.get_string("value_type_").unwrap().as_str(), "int32");
    assert_eq!(
        back.get_typename().unwrap().as_str(),
        "vineyard::Tensor<int32>"
    );
}
