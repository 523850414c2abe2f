use tensorman::error::Error;
use tensorman::image::{Image, ImageSource, TagVariants};
use tensorman::info::{DockerImage, Info};
use tensorman::command::{
    commit_command, docker_remove_image, equipment_arguments, namespaced, port_arguments,
    run_arguments, start_arguments, target_arguments, user, Host,
};
use tensorman::runtime::{
    container_exists, headings, local_image_found, named, row, short_id, Action, Container,
    Runtime,
};

fn texts(words: &[&str]) -> Vec<String> {
    words.iter().map(|word| word.to_string()).collect()
}

fn container(names: Option<&[&str]>) -> Container {
    Container { names: names.map(texts) }
}

fn image(id: &str, names: &[&str], size: &str) -> DockerImage {
    DockerImage { id: id.to_string(), repo_tags: texts(names), created: "0".to_string(), size: size.to_string() }
}

fn info(repo: &str, tag: &str, id: &str, size: &str) -> Info {
    Info {
        repo: repo.to_string(),
        tag: tag.to_string(),
        image_id: id.to_string(),
        created: "0".to_string(),
        size: size.to_string(),
    }
}

fn host() -> Host {
    Host { cwd: "/home/me/project".to_string(), uid: 1000, gid: 100 }
}

fn upstream(tag: &str, gpu: bool) -> Image<'_> {
    Image { variants: TagVariants { gpu, python3: false, jupyter: false }, source: ImageSource::Tensorflow(tag) }
}

fn knowing(containers: Option<Vec<Container>>, images: Option<Vec<DockerImage>>) -> Runtime {
    let mut runtime = Runtime::new();
    if let Some(reported) = containers {
        runtime.containers(reported);
    }
    if let Some(reported) = images {
        runtime.images(reported);
    }
    runtime
}

fn some_images() -> Vec<DockerImage> {
    vec![
        image("sha256:0123456789abcdef", &["tensorflow/tensorflow:2.4.0", "tensorflow/tensorflow:latest"], "1.2GB"),
        image("sha256:fedcba9876543210", &["ubuntu:20.04"], "70MB"),
        image("short", &["tensorman:r"], "2GB"),
    ]
}

#[test]
fn new_runtime_knows_nothing() {
    let runtime = Runtime::new();
    assert_eq!(runtime, Runtime { containers: None, images: None });
}

#[test]
fn listings_are_taken_in() {
    let mut runtime = Runtime::new();
    runtime.containers(vec![container(Some(&["/a"]))]);
    assert_eq!(runtime.containers, Some(vec![container(Some(&["/a"]))]));
    assert_eq!(runtime.images, None);
    runtime.images(some_images());
    assert_eq!(runtime.images, Some(some_images()));
    assert_eq!(runtime.containers, Some(vec![container(Some(&["/a"]))]));
}

#[test]
fn names_are_put_in_the_namespace() {
    assert_eq!(namespaced("x"), "tensorman-x");
    assert_eq!(namespaced(""), "tensorman-");
}

#[test]
fn reported_name_may_carry_a_slash() {
    assert!(named(&texts(&["/tensorman-x"]), "tensorman-x"));
    assert!(named(&texts(&["tensorman-x"]), "tensorman-x"));
    assert!(named(&texts(&["/other", "/tensorman-x"]), "tensorman-x"));
    assert!(!named(&texts(&["/tensorman-xy"]), "tensorman-x"));
    assert!(!named(&texts(&["//tensorman-x"]), "tensorman-x"));
    assert!(!named(&texts(&["", "/"]), "tensorman-x"));
    assert!(!named(&texts(&[]), "tensorman-x"));
    assert!(named(&texts(&["/"]), ""));
}

#[test]
fn container_is_found_among_all_names_of_all_containers() {
    let containers = vec![
        container(None),
        container(Some(&[])),
        container(Some(&["/first", "/second"])),
        container(Some(&["/tensorman-x"])),
    ];
    assert!(container_exists(&containers, "tensorman-x"));
    assert!(container_exists(&containers, "second"));
    assert!(!container_exists(&containers, "x"));
    assert!(!container_exists(&containers, "tensorman-"));
    assert!(!container_exists(&vec![], "tensorman-x"));
}

#[test]
fn local_image_is_found_by_repository_and_tag() {
    let infos = vec![info("tensorflow/tensorflow", "r", "a", "1"), info("tensorman", "s", "b", "1")];
    assert!(local_image_found(&infos, "s"));
    assert!(!local_image_found(&infos, "r"));
    assert!(!local_image_found(&vec![], "s"));
}

#[test]
fn user_is_root_or_the_two_ids() {
    assert_eq!(user(true, &host()), "root");
    assert_eq!(user(false, &host()), "1000:100");
    assert_eq!(user(false, &Host { cwd: String::new(), uid: 0, gid: u32::MAX }), "0:4294967295");
}

#[test]
fn each_port_is_published() {
    assert_eq!(port_arguments(&texts(&[])), texts(&[]));
    assert_eq!(port_arguments(&texts(&["8888:8888"])), texts(&["-p", "8888:8888"]));
    assert_eq!(port_arguments(&texts(&["80:80", "6006"])), texts(&["-p", "80:80", "-p", "6006"]));
}

#[test]
fn parts_of_a_run() {
    assert_eq!(start_arguments(None, true, &host()), texts(&["run", "-u", "root"]));
    assert_eq!(
        start_arguments(Some("x"), false, &host()),
        texts(&["run", "-u", "1000:100", "--name", "tensorman-x"])
    );
    assert_eq!(equipment_arguments(&upstream("latest", false)), texts(&["-e", "HOME=/project"]));
    assert_eq!(equipment_arguments(&upstream("latest", true)), texts(&["--gpus=all", "-e", "HOME=/project"]));
    assert_eq!(
        target_arguments(&upstream("2.4.0", true), "bash", &host()),
        texts(&["-it", "--rm", "-v", "/home/me/project:/project", "-w", "/project", "tensorflow/tensorflow:2.4.0-gpu", "bash"])
    );
}

#[test]
fn plain_run_arguments() {
    let arguments = run_arguments(&upstream("latest", false), "bash", None, &texts(&[]), false, None, None, &host());
    assert_eq!(
        arguments,
        texts(&[
            "run", "-u", "1000:100", "-e", "HOME=/project", "-it", "--rm", "-v",
            "/home/me/project:/project", "-w", "/project", "tensorflow/tensorflow:latest", "bash",
        ])
    );
}

#[test]
fn full_run_arguments() {
    let args = texts(&["-c", "print(1)"]);
    let flags = texts(&["--network=host", "--shm-size=1g"]);
    let arguments = run_arguments(
        &upstream("2.4.0", true),
        "python",
        Some("x"),
        &texts(&["8888:8888", "6006:6006"]),
        true,
        Some(&args),
        Some(&flags),
        &host(),
    );
    assert_eq!(
        arguments,
        texts(&[
            "run", "-u", "root", "--name", "tensorman-x", "-p", "8888:8888", "-p", "6006:6006",
            "--gpus=all", "-e", "HOME=/project", "--network=host", "--shm-size=1g", "-it", "--rm",
            "-v", "/home/me/project:/project", "-w", "/project", "tensorflow/tensorflow:2.4.0-gpu",
            "python", "-c", "print(1)",
        ])
    );
}

#[test]
fn local_image_with_gpu_runs_with_gpus() {
    let image = Image {
        variants: TagVariants { gpu: true, python3: true, jupyter: false },
        source: ImageSource::Container("mine"),
    };
    let arguments = run_arguments(&image, "bash", None, &texts(&[]), true, None, None, &host());
    assert_eq!(
        arguments,
        texts(&[
            "run", "-u", "root", "--gpus=all", "-e", "HOME=/project", "-it", "--rm", "-v",
            "/home/me/project:/project", "-w", "/project", "tensorman:mine", "bash",
        ])
    );
}

#[test]
fn run_without_name_needs_no_listing() {
    let runtime = Runtime::new();
    let result = runtime.run(&upstream("latest", false), "bash", None, &texts(&[]), false, None, None, &host());
    let expected = run_arguments(&upstream("latest", false), "bash", None, &texts(&[]), false, None, None, &host());
    assert_eq!(result, Ok(Action::Execute(vec![expected])));
}

#[test]
fn run_with_name_asks_for_the_containers_first() {
    let runtime = knowing(None, Some(some_images()));
    let result = runtime.run(&upstream("latest", false), "bash", Some("x"), &texts(&[]), false, None, None, &host());
    assert_eq!(result, Ok(Action::ListContainers));
}

#[test]
fn run_with_a_taken_name_is_refused() {
    let runtime = knowing(Some(vec![container(Some(&["/other"])), container(Some(&["/tensorman-x"]))]), None);
    let result = runtime.run(&upstream("latest", false), "bash", Some("x"), &texts(&[]), false, None, None, &host());
    assert_eq!(result, Err(Error::ContainerExists));
}

#[test]
fn run_with_a_free_name_is_carried_out() {
    let runtime = knowing(Some(vec![container(Some(&["/x"])), container(Some(&["/tensorman-xy"]))]), None);
    let result = runtime.run(&upstream("latest", false), "bash", Some("x"), &texts(&["80:80"]), false, None, None, &host());
    let expected = run_arguments(&upstream("latest", false), "bash", Some("x"), &texts(&["80:80"]), false, None, None, &host());
    assert_eq!(result, Ok(Action::Execute(vec![expected])));
}

#[test]
fn commit_names_the_container_and_the_new_image() {
    assert_eq!(commit_command("tensorman-c", "r"), texts(&["commit", "tensorman-c", "tensorman:r"]));
}

#[test]
fn save_asks_for_the_containers_first() {
    assert_eq!(Runtime::new().save("c", "r"), Ok(Action::ListContainers));
    assert_eq!(knowing(None, Some(some_images())).save("c", "r"), Ok(Action::ListContainers));
}

#[test]
fn save_of_a_missing_container_is_refused() {
    let runtime = knowing(Some(vec![container(Some(&["/c"]))]), None);
    assert_eq!(runtime.save("c", "r"), Err(Error::ContainerNotFound));
    let runtime = knowing(Some(vec![]), Some(some_images()));
    assert_eq!(runtime.save("c", "r"), Err(Error::ContainerNotFound));
}

#[test]
fn save_asks_for_the_images_once_the_container_is_found() {
    let runtime = knowing(Some(vec![container(Some(&["/tensorman-c"]))]), None);
    assert_eq!(runtime.save("c", "r"), Ok(Action::ListImages));
}

#[test]
fn save_over_an_existing_image_is_refused() {
    let runtime = knowing(Some(vec![container(Some(&["/tensorman-c"]))]), Some(some_images()));
    assert_eq!(runtime.save("c", "r"), Err(Error::ImageAlreadyExists));
}

#[test]
fn save_under_a_free_name_commits() {
    let runtime = knowing(Some(vec![container(Some(&["/tensorman-c"]))]), Some(some_images()));
    assert_eq!(
        runtime.save("c", "new"),
        Ok(Action::Execute(vec![texts(&["commit", "tensorman-c", "tensorman:new"])]))
    );
    assert_eq!(
        runtime.save("c", "2.4.0"),
        Ok(Action::Execute(vec![texts(&["commit", "tensorman-c", "tensorman:2.4.0"])]))
    );
}

#[test]
fn removal_names_the_image_by_its_id() {
    let record = info("tensorflow/tensorflow", "2.4.0", "sha256:abc", "1");
    assert_eq!(docker_remove_image(&record, false), texts(&["rmi", "sha256:abc"]));
    assert_eq!(docker_remove_image(&record, true), texts(&["rmi", "sha256:abc", "--force"]));
}

#[test]
fn remove_asks_for_the_images_first() {
    assert_eq!(Runtime::new().remove("abc123", false), Ok(Action::ListImages));
}

#[test]
fn remove_without_a_match_finds_no_image() {
    let runtime = knowing(None, Some(some_images()));
    assert_eq!(runtime.remove("abc123", false), Err(Error::ImageNotFound));
    assert_eq!(runtime.remove("20.04", true), Err(Error::ImageNotFound));
    assert_eq!(runtime.remove("short", true), Err(Error::ImageNotFound));
    assert_eq!(knowing(None, Some(vec![])).remove("abc123", false), Err(Error::ImageNotFound));
}

#[test]
fn remove_by_tag_removes_the_image() {
    let runtime = knowing(None, Some(some_images()));
    assert_eq!(
        runtime.remove("2.4.0", false),
        Ok(Action::Execute(vec![texts(&["rmi", "sha256:0123456789abcdef"])]))
    );
    assert_eq!(runtime.remove("r", true), Ok(Action::Execute(vec![texts(&["rmi", "short", "--force"])])));
}

#[test]
fn remove_by_beginning_of_id_removes_once_for_each_record() {
    let runtime = knowing(None, Some(some_images()));
    assert_eq!(
        runtime.remove("sha256:0123", false),
        Ok(Action::Execute(vec![
            texts(&["rmi", "sha256:0123456789abcdef"]),
            texts(&["rmi", "sha256:0123456789abcdef"]),
        ]))
    );
}

#[test]
fn id_is_shown_by_its_first_fifteen_characters() {
    assert_eq!(short_id("sha256:0123456789abcdef"), "sha256:01234567");
    assert_eq!(short_id("0123456789abcde"), "0123456789abcde");
    assert_eq!(short_id("0123456789abcdef"), "0123456789abcde");
    assert_eq!(short_id("short"), "short");
    assert_eq!(short_id(""), "");
}

#[test]
fn table_rows() {
    assert_eq!(headings(), texts(&["REPOSITORY", "TAG", "IMAGE ID", "SIZE"]));
    assert_eq!(
        row(&info("tensorman", "mine", "sha256:0123456789abcdef", "2GB")),
        texts(&["tensorman", "mine", "sha256:01234567", "2GB"])
    );
}

#[test]
fn list_asks_for_the_images_first() {
    assert_eq!(Runtime::new().list(), Action::ListImages);
}

#[test]
fn list_shows_one_row_for_each_record() {
    let runtime = knowing(None, Some(some_images()));
    assert_eq!(
        runtime.list(),
        Action::Show(vec![
            texts(&["REPOSITORY", "TAG", "IMAGE ID", "SIZE"]),
            texts(&["tensorflow/tensorflow", "2.4.0", "sha256:01234567", "1.2GB"]),
            texts(&["tensorflow/tensorflow", "latest", "sha256:01234567", "1.2GB"]),
            texts(&["tensorman", "r", "short", "2GB"]),
        ])
    );
}

#[test]
fn list_of_nothing_shows_the_headings() {
    let runtime = knowing(None, Some(vec![image("sha256:f", &["ubuntu:20.04"], "70MB")]));
    assert_eq!(runtime.list(), Action::Show(vec![texts(&["REPOSITORY", "TAG", "IMAGE ID", "SIZE"])]));
}
