use mold::bfd::{
    get_target, make_executable, path_to_c_char_vec, str_to_c_char_vec, unix_link_info,
    BFDError, CStringListReader, Direction, Handle, LinkProcess,
};

#[test]
fn c_chars_of_ascii() {
    let v = str_to_c_char_vec("foo");
    assert_eq!(v, vec![102i8, 111, 111]);
    assert_eq!(str_to_c_char_vec(""), Vec::<i8>::new());
}

#[test]
fn c_chars_of_non_ascii() {
    assert_eq!(str_to_c_char_vec("é"), vec![-61i8, -87]);
    let expected: Vec<i8> = "mach-o-x86-64".as_bytes().iter().map(|b| *b as i8).collect();
    assert_eq!(str_to_c_char_vec("mach-o-x86-64"), expected);
}

#[test]
fn c_chars_of_path() {
    assert_eq!(path_to_c_char_vec("/a/b.o"), str_to_c_char_vec("/a/b.o"));
}

#[test]
fn handle_for_input() {
    let h = Handle::for_input_obj_file("test.o", "mach-o-x86-64", true).unwrap();
    assert_eq!(h.path, "test.o");
    assert_eq!(h.target, "mach-o-x86-64");
    assert_eq!(h.direction, Direction::Input);
    assert_eq!(
        Handle::for_input_obj_file("test.o", "mach-o-x86-64", false),
        Err(BFDError::NullPtrError)
    );
}

#[test]
fn handle_for_output() {
    let h = Handle::for_output_obj_file("a.out", "mach-o-x86-64", true).unwrap();
    assert_eq!(h.direction, Direction::Output);
    assert_eq!(h.path, "a.out");
    assert_eq!(
        Handle::for_output_obj_file("a.out", "mach-o-x86-64", false),
        Err(BFDError::NullPtrError)
    );
}

#[test]
fn executable_opens_output_then_input() {
    let opens = make_executable("test.o", "libclang_rt.osx.a", "mach-o-x86-64", "test");
    assert_eq!(opens.len(), 2);
    assert_eq!(opens[0].path, "test");
    assert_eq!(opens[0].direction, Direction::Output);
    assert_eq!(opens[0].target, "mach-o-x86-64");
    assert_eq!(opens[1].path, "test.o");
    assert_eq!(opens[1].direction, Direction::Input);
    assert_eq!(opens[1].target, "mach-o-x86-64");
}

#[test]
fn link_info_uses_colon() {
    assert_eq!(unix_link_info().path_separator, b':' as i8);
    assert_eq!(LinkProcess::new().link_info.path_separator, b':' as i8);
}

#[test]
fn add_symbols_judges_status() {
    let link = LinkProcess::new();
    let h = Handle::for_input_obj_file("test.o", "mach-o-x86-64", true).unwrap();
    assert!(link.add_symbols(&h, 1));
    assert!(link.add_symbols(&h, -1));
    assert!(!link.add_symbols(&h, 0));
}

#[test]
fn target_lookup() {
    assert_eq!(get_target(Some("mach-o-x86-64".to_string())), Ok("mach-o-x86-64".to_string()));
    assert_eq!(get_target(None), Err(BFDError::NullPtrError));
}

#[test]
fn reader_stops_at_null() {
    let entries = vec![Some("elf64-x86-64".to_string()), Some("mach-o-x86-64".to_string()), None,
        Some("never".to_string())];
    let mut r = CStringListReader::new(false);
    while let Some(i) = r.next_index() {
        r.accept(entries[i].clone());
    }
    assert_eq!(r.into_strings(), vec!["elf64-x86-64".to_string(), "mach-o-x86-64".to_string()]);
}

#[test]
fn reader_of_null_list_is_empty() {
    let r = CStringListReader::new(true);
    assert_eq!(r.next_index(), None);
    assert!(r.into_strings().is_empty());
}

#[test]
fn reader_of_empty_list() {
    let mut r = CStringListReader::new(false);
    assert_eq!(r.next_index(), Some(0));
    r.accept(None);
    assert_eq!(r.next_index(), None);
    assert!(r.into_strings().is_empty());
}

#[test]
fn top_level_make_executable_returns_output() {
    assert_eq!(mold::make_executable("test.o", "rt.a", "test").unwrap(), "test");
}
