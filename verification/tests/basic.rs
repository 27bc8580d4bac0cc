use lessons::basic::{move_struct, pass_ref, MyStruct};

#[test]
fn run_code() {
    let gen_string: String = "This is a test string".to_owned();
    let gen_bz: Vec<u8> = [1, 3, 5, 6, 2].to_vec();

    let mut my_s: MyStruct = MyStruct::new_owned(gen_bz, gen_string);

    // This struct can be handed around by reference or moved by value.
    pass_ref(&my_s);
    move_struct(my_s.clone());

    let new_string = "this is the new string";
    // Update the struct through a mutable reference.
    my_s.update_string(&new_string);
    assert_eq!(my_s.my_string, new_string.to_owned());
}

#[test]
fn construction_copies_or_moves() {
    let bytes = [7u8, 8, 9];
    let text = "still mine";
    let from_refs = MyStruct::new_ref(&bytes, text);
    // The borrowed inputs are still usable afterwards.
    assert_eq!(bytes.to_vec(), from_refs.bytes);
    assert_eq!(text.to_owned(), from_refs.my_string);

    let owned = MyStruct::new_owned(vec![1, 2], "gone after this".to_owned());
    assert_eq!(owned.bytes, vec![1, 2]);
    assert_eq!(owned.my_string, "gone after this".to_owned());
}
