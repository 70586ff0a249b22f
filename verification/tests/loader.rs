use render_gl::resources::Error;
use render_gl::resources::FileStore;
use render_gl::resources::IoKind;
use render_gl::resources::MemoryFiles;
use render_gl::resources::Resources;
use render_gl::resources::resource_name_to_path;

#[test]
fn name_resolution_joins_root_and_name() {
    let path = resource_name_to_path(&String::from("assets"), &String::from("shaders/triangle"));
    assert_eq!(path, "assets/shaders/triangle");
}

#[test]
fn load_accepts_empty_file() {
    let mut files = MemoryFiles::new();
    files.add_file(String::from("assets/empty.vert"), Vec::new());
    let res = Resources::from_root_path(String::from("assets"));
    let source = res.load_cstring(&mut files, &String::from("empty.vert")).unwrap();
    assert_eq!(source.content, Vec::<u8>::new());
    assert_eq!(source.path, "assets/empty.vert");
}

#[test]
fn load_accepts_one_byte_file() {
    let mut files = MemoryFiles::new();
    files.add_file(String::from("assets/tiny"), vec![65]);
    let res = Resources::from_root_path(String::from("assets"));
    let source = res.load_cstring(&mut files, &String::from("tiny")).unwrap();
    assert_eq!(source.content, vec![65]);
}

#[test]
fn load_accepts_large_nil_free_file() {
    let mut files = MemoryFiles::new();
    let big: Vec<u8> = (0..100_000).map(|i| (i % 255) as u8 + 1).collect();
    files.add_file(String::from("assets/big"), big.clone());
    let res = Resources::from_root_path(String::from("assets"));
    let source = res.load_cstring(&mut files, &String::from("big")).unwrap();
    assert_eq!(source.content, big);
}

#[test]
fn load_rejects_any_zero_byte() {
    let mut files = MemoryFiles::new();
    files.add_file(String::from("assets/nil_start"), vec![0, 1, 2]);
    files.add_file(String::from("assets/nil_middle"), vec![1, 0, 2]);
    files.add_file(String::from("assets/nil_end"), vec![1, 2, 0]);
    let res = Resources::from_root_path(String::from("assets"));
    for name in ["nil_start", "nil_middle", "nil_end"] {
        let r = res.load_cstring(&mut files, &String::from(name));
        assert_eq!(r.unwrap_err(), Error::FileContainsNil);
    }
}

#[test]
fn load_reports_missing_file() {
    let mut files = MemoryFiles::new();
    let res = Resources::from_root_path(String::from("assets"));
    let r = res.load_cstring(&mut files, &String::from("absent"));
    assert_eq!(r.unwrap_err(), Error::Io(IoKind::NotFound));
}

#[test]
fn later_additions_shadow_earlier_ones() {
    let mut files = MemoryFiles::new();
    files.add_file(String::from("a"), vec![1]);
    files.add_file(String::from("a"), vec![2]);
    assert_eq!(files.read(&String::from("a")).unwrap(), vec![2]);
}
