use buildah_rs::buildah_error::BuildahError;
use buildah_rs::executor::{Invocation, ProcessOutput, PROGRAM};
use buildah_rs::image::{Image, SCRATCH};

fn words(invocation: &Invocation) -> Vec<String> {
    let mut words = vec![invocation.subcommand.clone()];
    words.extend(invocation.args.iter().cloned());
    words
}

#[test]
fn host_name_and_tag() {
    let image = Image::new(Some("docker.io"), "nginx", Some("1.21"));
    assert_eq!(image.to_string(), "docker.io/nginx:1.21");
}

#[test]
fn host_and_name() {
    assert_eq!(Image::new(Some("quay.io"), "buildah/stable", None).to_string(), "quay.io/buildah/stable");
}

#[test]
fn name_and_tag() {
    assert_eq!(Image::new(None, "nginx", Some("1.21")).to_string(), "nginx:1.21");
}

#[test]
fn name_alone() {
    assert_eq!(Image::new(None, "nginx", None).to_string(), "nginx");
}

#[test]
fn empty_components_are_kept_as_they_are() {
    assert_eq!(Image::new(Some(""), "", Some("")).to_string(), "/:");
    assert_eq!(Image::new(None, "", None).to_string(), "");
}

#[test]
fn formatting_is_a_function_of_the_components() {
    let a = Image::new(Some("localhost:5000"), "app", Some("v2"));
    let b = Image::new(Some("localhost:5000"), "app", Some("v2"));
    assert_eq!(a.to_string(), b.to_string());
    assert_eq!(a.to_string(), a.clone().to_string());
    assert_eq!(a.as_str(), "localhost:5000/app:v2");
}

#[test]
fn any_string_is_taken_verbatim() {
    assert_eq!(Image::from("nginx:1.21").to_string(), "nginx:1.21");
    assert_eq!(Image::from(String::from(" not/a//name: ")).to_string(), " not/a//name: ");
    assert_eq!(Image::from(SCRATCH).to_string(), "scratch");
}

#[test]
fn push_names_the_image() {
    let invocation = Image::new(Some("docker.io"), "nginx", Some("1.21")).push();
    assert_eq!(invocation.subcommand, "push");
    assert_eq!(invocation.args, vec!["docker.io/nginx:1.21"]);
    assert_eq!(PROGRAM, "buildah");
}

#[test]
fn push_that_succeeded_hands_back_the_output() {
    let output = ProcessOutput {
        success: true,
        stdout: b"Getting image source signatures\nCopying blob\n".to_vec(),
        stderr: b"warning\n".to_vec(),
    };
    assert_eq!(Image::pushed(Ok(output.clone())).unwrap(), output);
}

#[test]
fn push_that_failed_is_a_tool_error() {
    let output =
        ProcessOutput { success: false, stdout: b"x".to_vec(), stderr: b"unauthorized\n".to_vec() };
    assert!(matches!(
        Image::pushed(Ok(output)),
        Err(BuildahError::Buildah(m)) if m == "unauthorized"
    ));
}

#[test]
fn push_reads_errors_as_every_other_operation() {
    let unreadable = ProcessOutput { success: true, stdout: vec![0xff], stderr: Vec::new() };
    assert!(matches!(Image::pushed(Ok(unreadable)), Err(BuildahError::InvalidUTF8Output(_))));
    let e = std::io::Error::new(std::io::ErrorKind::NotFound, "buildah");
    assert!(matches!(Image::pushed(Err(e)), Err(BuildahError::IoError(_))));
}

#[test]
fn invocation_is_built_word_by_word() {
    let invocation = Invocation::new("images");
    assert_eq!(words(&invocation), vec!["images"]);
    let invocation = invocation.arg("--json").arg("");
    assert_eq!(words(&invocation), vec!["images", "--json", ""]);
    assert_eq!(invocation.clone(), invocation);
}
