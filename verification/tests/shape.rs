use tensor_shape::{ArrayElement, PrimitiveType, Shape};

#[test]
fn new_keeps_the_tag_of_the_element_kind() {
    let shape = Shape::new::<i32>(vec![2, 3]);
    assert_eq!(shape.element_type(), PrimitiveType::S32);
    assert_eq!(shape.element_type(), <i32 as ArrayElement>::PRIMITIVE_TYPE);
    assert_eq!(shape.dimensions(), &[2i64, 3][..]);
    assert!(!shape.is_tuple());
}

#[test]
fn new_for_each_element_kind() {
    assert_eq!(Shape::new::<bool>(vec![]).element_type(), PrimitiveType::Pred);
    assert_eq!(Shape::new::<i8>(vec![]).element_type(), PrimitiveType::S8);
    assert_eq!(Shape::new::<i16>(vec![]).element_type(), PrimitiveType::S16);
    assert_eq!(Shape::new::<i32>(vec![]).element_type(), PrimitiveType::S32);
    assert_eq!(Shape::new::<i64>(vec![]).element_type(), PrimitiveType::S64);
    assert_eq!(Shape::new::<u8>(vec![]).element_type(), PrimitiveType::U8);
    assert_eq!(Shape::new::<u16>(vec![]).element_type(), PrimitiveType::U16);
    assert_eq!(Shape::new::<u32>(vec![]).element_type(), PrimitiveType::U32);
    assert_eq!(Shape::new::<u64>(vec![]).element_type(), PrimitiveType::U64);
}

#[test]
fn new_sets_no_tuple_size() {
    let shape = Shape::new::<u8>(vec![4]);
    assert_eq!(shape.tuple_size(), None);
}

#[test]
fn with_type_keeps_tag_and_dimensions() {
    let shape = Shape::with_type(PrimitiveType::F32, vec![7, 1, 9]);
    assert_eq!(shape.element_type(), PrimitiveType::F32);
    assert_eq!(shape.ty(), PrimitiveType::F32);
    assert_eq!(shape.dimensions(), &[7i64, 1, 9][..]);
    assert!(!shape.is_tuple());
    assert_eq!(shape.tuple_size(), None);
}

#[test]
fn ty_is_element_type() {
    let shape = Shape::with_type(PrimitiveType::C128, vec![1]);
    assert_eq!(shape.ty(), shape.element_type());
    let tuple = Shape::tuple(2);
    assert_eq!(tuple.ty(), PrimitiveType::Tuple);
    assert_eq!(tuple.element_type(), PrimitiveType::Tuple);
}

#[test]
fn tuple_reports_its_arity() {
    let shape = Shape::tuple(3);
    assert!(shape.is_tuple());
    assert_eq!(shape.tuple_size(), Some(3));
    assert!(shape.dimensions().is_empty());
}

#[test]
fn tuple_of_nothing() {
    let shape = Shape::tuple(0);
    assert!(shape.is_tuple());
    assert_eq!(shape.tuple_size(), Some(0));
    assert!(shape.dimensions().is_empty());
    assert_eq!(shape.element_count(), 1);
}

#[test]
fn tuple_of_the_largest_arity() {
    let shape = Shape::tuple(usize::MAX);
    assert_eq!(shape.tuple_size(), Some(usize::MAX));
}

#[test]
fn with_type_given_the_tuple_tag() {
    let shape = Shape::with_type(PrimitiveType::Tuple, vec![1, 2]);
    assert!(shape.is_tuple());
    assert_eq!(shape.tuple_size(), Some(0));
    assert_eq!(shape.dimensions(), &[1i64, 2][..]);
}

#[test]
fn element_count_of_a_scalar_is_one() {
    let shape = Shape::new::<i32>(vec![]);
    assert_eq!(shape.element_count(), 1);
}

#[test]
fn element_count_is_the_product() {
    let shape = Shape::new::<i32>(vec![3, 4]);
    assert_eq!(shape.element_count(), 12);
}

#[test]
fn element_count_with_a_zero_dimension() {
    let shape = Shape::new::<i32>(vec![2, 0, 5]);
    assert_eq!(shape.element_count(), 0);
}

#[test]
fn element_count_of_one_dimension() {
    let shape = Shape::new::<i64>(vec![17]);
    assert_eq!(shape.element_count(), 17);
}

#[test]
fn element_count_of_five_dimensions() {
    let shape = Shape::with_type(PrimitiveType::U8, vec![2, 3, 5, 7, 11]);
    assert_eq!(shape.element_count(), 2310);
}

#[test]
fn element_count_reads_a_negative_dimension_as_unsigned() {
    let shape = Shape::new::<i32>(vec![-1]);
    assert_eq!(shape.element_count(), usize::MAX);
    let shape = Shape::new::<i32>(vec![-1, 1]);
    assert_eq!(shape.element_count(), usize::MAX);
}

#[test]
fn element_count_wraps_around() {
    let shape = Shape::new::<i32>(vec![-1, 2]);
    assert_eq!(shape.element_count(), usize::MAX - 1);
    let shape = Shape::new::<i32>(vec![-1, -1]);
    assert_eq!(shape.element_count(), 1);
    let shape = Shape::new::<i32>(vec![-2, 3]);
    assert_eq!(shape.element_count(), usize::MAX - 5);
}

#[test]
fn first_and_last_dim_of_a_scalar_are_absent() {
    let shape = Shape::new::<i32>(vec![]);
    assert_eq!(shape.first_dim(), None);
    assert_eq!(shape.last_dim(), None);
}

#[test]
fn first_and_last_dim_of_one_dimension() {
    let shape = Shape::new::<i32>(vec![7]);
    assert_eq!(shape.first_dim(), Some(7));
    assert_eq!(shape.last_dim(), Some(7));
}

#[test]
fn first_and_last_dim_of_three_dimensions() {
    let shape = Shape::new::<i32>(vec![2, 3, 4]);
    assert_eq!(shape.first_dim(), Some(2));
    assert_eq!(shape.last_dim(), Some(4));
}

#[test]
fn first_and_last_dim_of_a_tuple_are_absent() {
    let shape = Shape::tuple(4);
    assert_eq!(shape.first_dim(), None);
    assert_eq!(shape.last_dim(), None);
}

#[test]
fn dimensions_keep_order_and_repeats() {
    let dims = vec![5, -3, 5, 0, i64::MAX, i64::MIN];
    let shape = Shape::new::<u16>(dims.clone());
    assert_eq!(shape.dimensions(), &dims[..]);
    assert_eq!(shape.first_dim(), Some(5));
    assert_eq!(shape.last_dim(), Some(i64::MIN));
}

#[test]
fn tuple_size_of_an_array_shape_is_absent() {
    let shape = Shape::with_type(PrimitiveType::S32, vec![1, 2]);
    assert_eq!(shape.tuple_size(), None);
    let scalar = Shape::with_type(PrimitiveType::Pred, vec![]);
    assert_eq!(scalar.tuple_size(), None);
}

#[test]
fn round_trip_through_dimensions() {
    let shape = Shape::with_type(PrimitiveType::U32, vec![4, 0, -2]);
    let again = Shape::with_type(shape.element_type(), shape.dimensions().to_vec());
    assert_eq!(again, shape);
    assert!(again == shape);
}

#[test]
fn round_trip_of_a_typed_shape() {
    let shape = Shape::new::<i16>(vec![8, 8]);
    let again = Shape::new::<i16>(shape.dimensions().to_vec());
    assert_eq!(again, shape);
}

#[test]
fn round_trip_of_a_tuple() {
    let shape = Shape::tuple(6);
    let again = Shape::tuple(shape.tuple_size().unwrap());
    assert_eq!(again, shape);
}

#[test]
fn equal_shapes() {
    assert_eq!(Shape::new::<i32>(vec![1, 2]), Shape::with_type(PrimitiveType::S32, vec![1, 2]));
    assert_eq!(Shape::tuple(0), Shape::with_type(PrimitiveType::Tuple, vec![]));
    assert_eq!(Shape::new::<u8>(vec![]), Shape::new::<u8>(vec![]));
}

#[test]
fn shapes_differ_by_tag() {
    assert_ne!(Shape::new::<i32>(vec![1, 2]), Shape::new::<u32>(vec![1, 2]));
}

#[test]
fn shapes_differ_by_dimensions() {
    assert_ne!(Shape::new::<i32>(vec![1, 2]), Shape::new::<i32>(vec![2, 1]));
    assert_ne!(Shape::new::<i32>(vec![1, 2]), Shape::new::<i32>(vec![1]));
    assert_ne!(Shape::new::<i32>(vec![1, 2]), Shape::new::<i32>(vec![1, 2, 3]));
    assert_ne!(Shape::new::<i32>(vec![]), Shape::new::<i32>(vec![0]));
    assert_ne!(Shape::new::<i32>(vec![1, 2, 3]), Shape::new::<i32>(vec![1, 2, 4]));
}

#[test]
fn shapes_differ_by_tuple_arity() {
    assert_ne!(Shape::tuple(1), Shape::tuple(2));
    assert_ne!(Shape::tuple(1), Shape::with_type(PrimitiveType::Tuple, vec![]));
}

#[test]
fn clone_is_equal() {
    let shape = Shape::new::<u64>(vec![3, 1, 4, 1, 5]);
    let copy = shape.clone();
    assert_eq!(copy, shape);
    assert_eq!(copy.dimensions(), shape.dimensions());
    let tuple = Shape::tuple(9);
    assert_eq!(tuple.clone(), tuple);
    assert_eq!(tuple.clone().tuple_size(), Some(9));
}
