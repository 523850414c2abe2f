//! The argument lists with which the container runtime is called to run a
//! container, to save one as an image, and to remove an image.

use crate::image::{Image, ImageView};
use crate::info::{Info, InfoView};
use crate::text::{decimal, push_text, push_texts, spec_decimal};
use vstd::prelude::*;
use vstd::string::*;

verus! {

/// Where a container is started from: the working directory, and the user
/// and group on whose behalf it runs.
#[derive(Debug, PartialEq, Eq)]
pub struct Host {
    /// The working directory.
    pub cwd: String,
    /// The user's ID.
    pub uid: u32,
    /// The ID of the user's group.
    pub gid: u32,
}

/// What a `Host` holds.
pub struct HostView {
    pub cwd: Seq<char>,
    pub uid: u32,
    pub gid: u32,
}

impl DeepView for Host {
    type V = HostView;

    open spec fn deep_view(&self) -> HostView {
        HostView { cwd: self.cwd@, uid: self.uid, gid: self.gid }
    }
}

/// The name under which a container of the user's name `name` is known to
/// the container runtime.
pub open spec fn spec_namespaced(name: Seq<char>) -> Seq<char> {
    "tensorman-"@ + name
}

/// The user that a container runs as: `root`, or the IDs of the user and of
/// the group on whose behalf it is started.
pub open spec fn spec_user(as_root: bool, host: HostView) -> Seq<char> {
    if as_root {
        "root"@
    } else {
        spec_decimal(host.uid as nat) + ":"@ + spec_decimal(host.gid as nat)
    }
}

/// The arguments that publish `ports`: `-p` before each of them.
pub open spec fn spec_port_arguments(ports: Seq<Seq<char>>) -> Seq<Seq<char>> {
    ports.flat_map(|port: Seq<char>| seq!["-p"@, port])
}

/// The texts of a list that may be missing: none where it is.
pub open spec fn texts_or_none(list: Option<Seq<Seq<char>>>) -> Seq<Seq<char>> {
    match list {
        Some(texts) => texts,
        None => Seq::empty(),
    }
}

/// The arguments that begin a run: the user that the container runs as,
/// and the container's name where the user gave one.
pub open spec fn spec_start_arguments(
    name: Option<Seq<char>>,
    as_root: bool,
    host: HostView,
) -> Seq<Seq<char>> {
    seq!["run"@, "-u"@, spec_user(as_root, host)] + (match name {
        Some(name) => seq!["--name"@, spec_namespaced(name)],
        None => Seq::empty(),
    })
}

/// The arguments that equip a container: all GPUs where the image's
/// variants hold GPU, and a home in `/project`.
pub open spec fn spec_equipment_arguments(image: ImageView) -> Seq<Seq<char>> {
    (if image.variants.gpu {
        seq!["--gpus=all"@]
    } else {
        Seq::empty()
    }) + seq!["-e"@, "HOME=/project"@]
}

/// The arguments that end a run: the container is interactive and removed
/// at its end, the working directory is mounted as `/project` and work
/// begins there; then come the image's reference and the command.
pub open spec fn spec_target_arguments(
    image: ImageView,
    cmd: Seq<char>,
    host: HostView,
) -> Seq<Seq<char>> {
    seq![
        "-it"@,
        "--rm"@,
        "-v"@,
        host.cwd + ":/project"@,
        "-w"@,
        "/project"@,
        image.reference(),
        cmd,
    ]
}

/// The arguments with which the container runtime runs `cmd` in a new
/// container of `image`: in this order, how the run begins, the ports
/// published, the container's equipment, `docker_flags` as they are, how the
/// run ends, and the arguments of the command.
pub open spec fn spec_run_arguments(
    image: ImageView,
    cmd: Seq<char>,
    name: Option<Seq<char>>,
    ports: Seq<Seq<char>>,
    as_root: bool,
    args: Option<Seq<Seq<char>>>,
    docker_flags: Option<Seq<Seq<char>>>,
    host: HostView,
) -> Seq<Seq<char>> {
    spec_start_arguments(name, as_root, host) + spec_port_arguments(ports)
        + spec_equipment_arguments(image) + texts_or_none(docker_flags) + spec_target_arguments(
        image,
        cmd,
        host,
    ) + texts_or_none(args)
}

/// The arguments with which the container runtime saves the container
/// `container` as the local image `repo`.
pub open spec fn spec_commit_arguments(container: Seq<char>, repo: Seq<char>) -> Seq<Seq<char>> {
    seq!["commit"@, container, "tensorman:"@ + repo]
}

/// The arguments with which the container runtime removes the image of a
/// record.
pub open spec fn spec_remove_arguments(info: InfoView, force: bool) -> Seq<Seq<char>> {
    seq!["rmi"@, info.image_id] + (if force {
        seq!["--force"@]
    } else {
        Seq::empty()
    })
}

/// The name under which a container of the user's name `name` is known to
/// the container runtime: the name behind `tensorman-`.
pub fn namespaced(name: &str) -> (full: String)
    ensures
        full@ == spec_namespaced(name@),
{
    let mut full = String::from_str("tensorman-");
    full.append(name);
    full
}

/// The user that a container runs as.
pub fn user(as_root: bool, host: &Host) -> (text: String)
    ensures
        text@ == spec_user(as_root, host.deep_view()),
{
    if as_root {
        String::from_str("root")
    } else {
        let mut text = decimal(host.uid);
        text.append(":");
        let group = decimal(host.gid);
        text.append(group.as_str());
        text
    }
}

/// The arguments that publish `ports`.
pub fn port_arguments(ports: &Vec<String>) -> (arguments: Vec<String>)
    ensures
        arguments.deep_view() == spec_port_arguments(ports.deep_view()),
{
    let mut arguments: Vec<String> = Vec::new();
    let ghost views = ports.deep_view();
    let ghost each = |port: Seq<char>| seq!["-p"@, port];
    let mut i: usize = 0;
    while i < ports.len()
        invariant
            i <= ports.len(),
            views == ports.deep_view(),
            each == |port: Seq<char>| seq!["-p"@, port],
            arguments.deep_view() == spec_port_arguments(views.take(i as int)),
        decreases ports.len() - i,
    {
        proof {
            let done = views.take(i as int);
            assert(views.take(i + 1) =~= done.push(views[i as int]));
            assert(done.push(views[i as int]).map_values(each) =~= done.map_values(each).push(
                each(views[i as int]),
            ));
            done.map_values(each).lemma_flatten_push(each(views[i as int]));
        }
        push_text(&mut arguments, "-p");
        push_text(&mut arguments, ports[i].as_str());
        i += 1;
    }
    assert(views.take(i as int) =~= views);
    arguments
}

/// The arguments that begin a run.
pub fn start_arguments(name: Option<&str>, as_root: bool, host: &Host) -> (arguments: Vec<String>)
    ensures
        arguments.deep_view() == spec_start_arguments(name.deep_view(), as_root, host.deep_view()),
{
    let mut arguments: Vec<String> = Vec::new();
    push_text(&mut arguments, "run");
    push_text(&mut arguments, "-u");
    let user = user(as_root, host);
    push_text(&mut arguments, user.as_str());
    match name {
        Some(name) => {
            push_text(&mut arguments, "--name");
            let full = namespaced(name);
            push_text(&mut arguments, full.as_str());
        },
        None => {},
    }
    arguments
}

/// The arguments that equip a container.
pub fn equipment_arguments(image: &Image) -> (arguments: Vec<String>)
    ensures
        arguments.deep_view() == spec_equipment_arguments(image@),
{
    let mut arguments: Vec<String> = Vec::new();
    if image.variants.gpu {
        push_text(&mut arguments, "--gpus=all");
    }
    push_text(&mut arguments, "-e");
    push_text(&mut arguments, "HOME=/project");
    arguments
}

/// The arguments that end a run.
pub fn target_arguments(image: &Image, cmd: &str, host: &Host) -> (arguments: Vec<String>)
    ensures
        arguments.deep_view() == spec_target_arguments(image@, cmd@, host.deep_view()),
{
    let mut arguments: Vec<String> = Vec::new();
    push_text(&mut arguments, "-it");
    push_text(&mut arguments, "--rm");
    push_text(&mut arguments, "-v");
    let mut mount = host.cwd.clone();
    mount.append(":/project");
    push_text(&mut arguments, mount.as_str());
    push_text(&mut arguments, "-w");
    push_text(&mut arguments, "/project");
    let reference = image.to_reference();
    push_text(&mut arguments, reference.as_str());
    push_text(&mut arguments, cmd);
    arguments
}

/// The arguments with which the container runtime runs `cmd` in a new
/// container of `image`.
pub fn run_arguments(
    image: &Image,
    cmd: &str,
    name: Option<&str>,
    ports: &Vec<String>,
    as_root: bool,
    args: Option<&Vec<String>>,
    docker_flags: Option<&Vec<String>>,
    host: &Host,
) -> (arguments: Vec<String>)
    ensures
        arguments.deep_view() == spec_run_arguments(
            image@,
            cmd@,
            name.deep_view(),
            ports.deep_view(),
            as_root,
            args.deep_view(),
            docker_flags.deep_view(),
            host.deep_view(),
        ),
{
    let mut arguments = start_arguments(name, as_root, host);
    let published = port_arguments(ports);
    push_texts(&mut arguments, &published);
    let equipment = equipment_arguments(image);
    push_texts(&mut arguments, &equipment);
    match docker_flags {
        Some(flags) => {
            push_texts(&mut arguments, flags);
        },
        None => {},
    }
    let target = target_arguments(image, cmd, host);
    push_texts(&mut arguments, &target);
    match args {
        Some(args) => {
            push_texts(&mut arguments, args);
        },
        None => {},
    }
    arguments
}

/// The arguments with which the container runtime saves the container
/// `container` as the local image `repo`.
pub fn commit_command(container: &str, repo: &str) -> (arguments: Vec<String>)
    ensures
        arguments.deep_view() == spec_commit_arguments(container@, repo@),
{
    let mut image = String::from_str("tensorman:");
    image.append(repo);
    let mut arguments: Vec<String> = Vec::new();
    push_text(&mut arguments, "commit");
    push_text(&mut arguments, container);
    push_text(&mut arguments, image.as_str());
    arguments
}

/// The arguments with which the container runtime removes the image of a
/// record, by force where `force` is set.
pub fn docker_remove_image(info: &Info, force: bool) -> (arguments: Vec<String>)
    ensures
        arguments.deep_view() == spec_remove_arguments(info.deep_view(), force),
{
    let mut arguments: Vec<String> = Vec::new();
    push_text(&mut arguments, "rmi");
    push_text(&mut arguments, info.image_id.as_str());
    if force {
        push_text(&mut arguments, "--force");
    }
    arguments
}

} // verus!
