use render_gl::rectangle::Rectangle;
use render_gl::render_gl::capture::CaptureGl;
use render_gl::resources::drain_and_reload;
use render_gl::resources::MemoryFiles;
use render_gl::resources::Reloadable;
use render_gl::resources::Resources;
use render_gl::resources::ResourceWatcher;
use render_gl::triangle::Triangle;

fn stocked_files() -> MemoryFiles {
    let mut files = MemoryFiles::new();
    files.add_file(
        String::from("assets/shaders/triangle.vert"),
        b"void main() { }".to_vec(),
    );
    files.add_file(
        String::from("assets/shaders/triangle.frag"),
        b"void main() { }".to_vec(),
    );
    files
}

fn triangle_vertices() -> Vec<u8> {
    (0..48).map(|i| i as u8).collect()
}

fn rectangle_vertices() -> Vec<u8> {
    (0..64).map(|i| i as u8).collect()
}

#[test]
fn triangle_builds_uploads_and_renders() {
    let mut gl = CaptureGl::new();
    let mut files = stocked_files();
    let res = Resources::from_root_path(String::from("assets"));
    let vertices = triangle_vertices();
    let triangle = Triangle::new(&res, &mut gl, &mut files, &vertices).unwrap();
    assert_eq!(gl.program_count(), 1);
    assert_eq!(gl.buffer_count(), 1);
    assert_eq!(gl.vao_count(), 1);
    assert_eq!(gl.shader_count(), 0);
    assert_eq!(
        triangle.get_paths().clone(),
        vec![
            String::from("assets/shaders/triangle.vert"),
            String::from("assets/shaders/triangle.frag"),
        ]
    );
    triangle.render(&mut gl);
}

#[test]
fn triangle_build_failure_releases_everything() {
    let mut gl = CaptureGl::new();
    gl.reject_link = true;
    let mut files = stocked_files();
    let res = Resources::from_root_path(String::from("assets"));
    let vertices = triangle_vertices();
    assert!(Triangle::new(&res, &mut gl, &mut files, &vertices).is_err());
    assert_eq!(gl.program_count(), 0);
    assert_eq!(gl.buffer_count(), 0);
    assert_eq!(gl.vao_count(), 0);
    assert_eq!(gl.shader_count(), 0);
}

#[test]
fn rectangle_builds_with_index_buffer() {
    let mut gl = CaptureGl::new();
    let mut files = stocked_files();
    let res = Resources::from_root_path(String::from("assets"));
    let vertices = rectangle_vertices();
    let rectangle = Rectangle::new(&res, &mut gl, &mut files, &vertices).unwrap();
    assert_eq!(gl.program_count(), 1);
    assert_eq!(gl.buffer_count(), 2);
    assert_eq!(gl.vao_count(), 1);
    assert_eq!(gl.shader_count(), 0);
    let expected_indices: Vec<u8> = vec![
        0, 0, 0, 0, 1, 0, 0, 0, 2, 0, 0, 0, 2, 0, 0, 0, 3, 0, 0, 0, 0, 0, 0, 0,
    ];
    let mut found_indices = false;
    let mut found_vertices = false;
    for id in 1..64 {
        if let Some(contents) = gl.buffer_contents(id) {
            if contents == expected_indices {
                found_indices = true;
            }
            if contents == vertices {
                found_vertices = true;
            }
        }
    }
    assert!(found_indices);
    assert!(found_vertices);
    rectangle.render(&mut gl);
}

#[test]
fn reload_replaces_the_program_in_place() {
    let mut gl = CaptureGl::new();
    let mut files = stocked_files();
    let res = Resources::from_root_path(String::from("assets"));
    let vertices = triangle_vertices();
    let mut triangle = Triangle::new(&res, &mut gl, &mut files, &vertices).unwrap();
    let paths_before = triangle.get_paths().clone();
    triangle.reload(&mut gl, &res, &mut files).unwrap();
    assert_eq!(gl.program_count(), 1);
    assert_eq!(gl.shader_count(), 0);
    assert_eq!(triangle.get_paths().clone(), paths_before);
    triangle.render(&mut gl);
}

#[test]
fn reload_on_unchanged_source_links_identical_sources() {
    let mut gl = CaptureGl::new();
    let mut files = stocked_files();
    let res = Resources::from_root_path(String::from("assets"));
    let vertices = triangle_vertices();
    let mut triangle = Triangle::new(&res, &mut gl, &mut files, &vertices).unwrap();
    let before = gl.linked_sources(triangle.program_id()).unwrap();
    triangle.reload(&mut gl, &res, &mut files).unwrap();
    let after = gl.linked_sources(triangle.program_id()).unwrap();
    assert_eq!(before, after);
    triangle.reload(&mut gl, &res, &mut files).unwrap();
    let again = gl.linked_sources(triangle.program_id()).unwrap();
    assert_eq!(before, again);
}

#[test]
fn repeated_reload_on_unchanged_source_keeps_working() {
    let mut gl = CaptureGl::new();
    let mut files = stocked_files();
    let res = Resources::from_root_path(String::from("assets"));
    let vertices = triangle_vertices();
    let mut triangle = Triangle::new(&res, &mut gl, &mut files, &vertices).unwrap();
    for _ in 0..3 {
        triangle.reload(&mut gl, &res, &mut files).unwrap();
        assert_eq!(gl.program_count(), 1);
        triangle.render(&mut gl);
    }
}

#[test]
fn failed_reload_keeps_previous_state() {
    let mut gl = CaptureGl::new();
    let mut files = stocked_files();
    let res = Resources::from_root_path(String::from("assets"));
    let vertices = triangle_vertices();
    let mut triangle = Triangle::new(&res, &mut gl, &mut files, &vertices).unwrap();
    let paths_before = triangle.get_paths().clone();

    gl.reject_link = true;
    assert!(triangle.reload(&mut gl, &res, &mut files).is_err());

    assert_eq!(triangle.get_paths().clone(), paths_before);
    assert_eq!(gl.program_count(), 1);
    assert_eq!(gl.shader_count(), 0);
    gl.reject_link = false;
    triangle.render(&mut gl);
}

#[test]
fn drain_with_no_events_reloads_nothing() {
    let mut gl = CaptureGl::new();
    let mut files = stocked_files();
    let res = Resources::from_root_path(String::from("assets"));
    let mut triangle = Triangle::new(&res, &mut gl, &mut files, &triangle_vertices()).unwrap();
    let mut rectangle = Rectangle::new(&res, &mut gl, &mut files, &rectangle_vertices()).unwrap();
    let watcher = ResourceWatcher::new().unwrap();
    let failures = drain_and_reload(
        &watcher,
        &mut gl,
        &res,
        &mut files,
        &mut triangle,
        &mut rectangle,
    );
    assert_eq!(failures, 0);
    assert_eq!(gl.program_count(), 2);
    triangle.render(&mut gl);
    rectangle.render(&mut gl);
}

#[test]
fn registering_nonexistent_paths_is_refused() {
    let mut gl = CaptureGl::new();
    let mut files = stocked_files();
    let res = Resources::from_root_path(String::from("assets"));
    let triangle = Triangle::new(&res, &mut gl, &mut files, &triangle_vertices()).unwrap();
    let mut watcher = ResourceWatcher::new().unwrap();
    assert!(watcher.add_reloadable(&triangle).is_err());
}
