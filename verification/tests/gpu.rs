use render_gl::render_gl::api::ShaderKind;
use render_gl::render_gl::buffer::ArrayBuffer;
use render_gl::render_gl::capture::CaptureGl;
use render_gl::render_gl::shader::Error;
use render_gl::render_gl::shader::Program;
use render_gl::render_gl::shader::Shader;
use render_gl::render_gl::shader::shader_kind_for_name;
use render_gl::resources::IoKind;
use render_gl::resources::MemoryFiles;
use render_gl::resources::Resources;

fn stocked_files() -> MemoryFiles {
    let mut files = MemoryFiles::new();
    files.add_file(
        String::from("assets/shaders/triangle.vert"),
        b"void main() { }".to_vec(),
    );
    files.add_file(
        String::from("assets/shaders/triangle.frag"),
        b"void main() { }".to_vec(),
    );
    files
}

#[test]
fn shader_kind_follows_suffix() {
    assert_eq!(
        shader_kind_for_name(&String::from("shaders/triangle.vert")),
        Some(ShaderKind::Vertex)
    );
    assert_eq!(
        shader_kind_for_name(&String::from("shaders/triangle.frag")),
        Some(ShaderKind::Fragment)
    );
    assert_eq!(shader_kind_for_name(&String::from("shaders/triangle.tess")), None);
    assert_eq!(shader_kind_for_name(&String::from("vert")), None);
}

#[test]
fn upload_reads_back_empty_one_and_large() {
    for data in [Vec::new(), vec![7u8], (0..65_536).map(|i| (i % 251) as u8).collect::<Vec<u8>>()] {
        let mut gl = CaptureGl::new();
        let buffer = ArrayBuffer::new(&mut gl).unwrap();
        buffer.bind(&mut gl);
        buffer.static_draw(&mut gl, &data);
        let vbo = find_only_buffer(&gl);
        assert_eq!(gl.buffer_contents(vbo).unwrap(), data);
        buffer.unbind(&mut gl);
        buffer.release(&mut gl);
        assert_eq!(gl.buffer_count(), 0);
    }
}

fn find_only_buffer(gl: &CaptureGl) -> u32 {
    assert_eq!(gl.buffer_count(), 1);
    for id in 1..64 {
        if gl.buffer_contents(id).is_some() {
            return id;
        }
    }
    panic!("no live buffer found");
}

#[test]
fn from_source_compiles_and_releases_on_rejection() {
    let mut gl = CaptureGl::new();
    let source = b"void main() { }".to_vec();
    let shader = Shader::from_source(&mut gl, &source, ShaderKind::Vertex).unwrap();
    assert_eq!(gl.shader_count(), 1);
    shader.release(&mut gl);
    assert_eq!(gl.shader_count(), 0);

    gl.reject_compile = true;
    let r = Shader::from_source(&mut gl, &source, ShaderKind::Vertex);
    assert!(r.is_err());
    assert_eq!(gl.shader_count(), 0);
}

#[test]
fn from_resource_name_links_a_usable_program() {
    let mut gl = CaptureGl::new();
    let mut files = stocked_files();
    let res = Resources::from_root_path(String::from("assets"));
    let program = Program::from_resource_name(
        &mut gl,
        &res,
        &mut files,
        &String::from("shaders/triangle"),
    )
    .unwrap();
    assert!(gl.program_is_linked(program.id()));
    assert_eq!(gl.shader_count(), 0);
    assert_eq!(gl.program_count(), 1);
    assert_eq!(
        program.watched_paths().clone(),
        vec![
            String::from("assets/shaders/triangle.vert"),
            String::from("assets/shaders/triangle.frag"),
        ]
    );
    program.release(&mut gl);
    assert_eq!(gl.program_count(), 0);
}

#[test]
fn missing_fragment_stage_names_the_failing_file() {
    let mut gl = CaptureGl::new();
    let mut files = MemoryFiles::new();
    files.add_file(
        String::from("assets/shaders/triangle.vert"),
        b"void main() { }".to_vec(),
    );
    let res = Resources::from_root_path(String::from("assets"));
    let r = Program::from_resource_name(
        &mut gl,
        &res,
        &mut files,
        &String::from("shaders/triangle"),
    );
    match r.unwrap_err() {
        Error::ResourceLoad { name, inner } => {
            assert_eq!(name, "shaders/triangle.frag");
            assert_eq!(inner, render_gl::resources::Error::Io(IoKind::NotFound));
        },
        other => panic!("unexpected error: {:?}", other),
    }
    assert_eq!(gl.shader_count(), 0);
    assert_eq!(gl.program_count(), 0);
}

#[test]
fn compile_rejection_names_the_stage_file() {
    let mut gl = CaptureGl::new();
    gl.reject_compile = true;
    let mut files = stocked_files();
    let res = Resources::from_root_path(String::from("assets"));
    let r = Program::from_resource_name(
        &mut gl,
        &res,
        &mut files,
        &String::from("shaders/triangle"),
    );
    match r.unwrap_err() {
        Error::CompileError { name, message: _ } => {
            assert_eq!(name, "shaders/triangle.vert");
        },
        other => panic!("unexpected error: {:?}", other),
    }
    assert_eq!(gl.shader_count(), 0);
    assert_eq!(gl.program_count(), 0);
}

#[test]
fn link_rejection_releases_every_allocated_id() {
    let mut gl = CaptureGl::new();
    gl.reject_link = true;
    let mut files = stocked_files();
    let res = Resources::from_root_path(String::from("assets"));
    let r = Program::from_resource_name(
        &mut gl,
        &res,
        &mut files,
        &String::from("shaders/triangle"),
    );
    match r.unwrap_err() {
        Error::LinkError { name, message: _ } => {
            assert_eq!(name, "shaders/triangle");
        },
        other => panic!("unexpected error: {:?}", other),
    }
    assert_eq!(gl.shader_count(), 0);
    assert_eq!(gl.program_count(), 0);
    assert_eq!(gl.buffer_count(), 0);
    assert_eq!(gl.vao_count(), 0);
}

#[test]
fn unrecognized_suffix_cannot_determine_kind() {
    let mut gl = CaptureGl::new();
    let mut files = MemoryFiles::new();
    files.add_file(String::from("assets/shaders/sky.glsl"), b"x".to_vec());
    let res = Resources::from_root_path(String::from("assets"));
    let r = Shader::from_resource_name(
        &mut gl,
        &res,
        &mut files,
        &String::from("shaders/sky.glsl"),
    );
    match r.unwrap_err() {
        Error::CannotDetermineShaderKind { name } => {
            assert_eq!(name, "shaders/sky.glsl");
        },
        other => panic!("unexpected error: {:?}", other),
    }
}
