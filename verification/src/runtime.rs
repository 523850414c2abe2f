//! The calls to the container runtime, planned from what the runtime has
//! reported so far.
//!
//! Nothing here reaches the runtime. Each operation looks at what is known
//! and answers with the next thing to do: to fetch a listing and come back
//! with it, to show something, or to carry out runtime commands. The checks
//! of an operation come in a fixed order, and its commands are given only
//! once every check has passed.

use crate::error::Error;
use crate::command::{
    commit_command, docker_remove_image, namespaced, run_arguments, spec_commit_arguments,
    spec_namespaced, spec_remove_arguments, spec_run_arguments, Host, HostView,
};
use crate::image::{Image, ImageView};
use crate::info::{iterate_image_info, spec_image_info, DockerImage, DockerImageView, Info, InfoView};
use crate::text::{push_text, same_text};
use vstd::prelude::*;
use vstd::string::*;

verus! {

/// A container as the container runtime reports it.
#[derive(Debug, PartialEq, Eq)]
pub struct Container {
    /// The names of the container, if it has any. The runtime may write a
    /// slash before a name.
    pub names: Option<Vec<String>>,
}

/// What a `Container` holds.
pub struct ContainerView {
    pub names: Option<Seq<Seq<char>>>,
}

impl DeepView for Container {
    type V = ContainerView;

    open spec fn deep_view(&self) -> ContainerView {
        ContainerView { names: self.names.deep_view() }
    }
}

/// The next thing to do for an operation.
#[derive(Debug, PartialEq, Eq)]
pub enum Action {
    /// Fetch the list of all containers, hand it to `Runtime::containers`,
    /// and ask again.
    ListContainers,
    /// Fetch the list of all images, hand it to `Runtime::images`, and ask
    /// again.
    ListImages,
    /// Show these rows as a table. The first row holds the headings. This
    /// ends the operation.
    Show(Vec<Vec<String>>),
    /// Call the container runtime with each of these argument lists, in
    /// their order, and stop at the first call that fails: its failure is the
    /// operation's. This ends the operation.
    Execute(Vec<Vec<String>>),
}

/// What an `Action` holds.
pub enum ActionView {
    ListContainers,
    ListImages,
    Show(Seq<Seq<Seq<char>>>),
    Execute(Seq<Seq<Seq<char>>>),
}

impl DeepView for Action {
    type V = ActionView;

    open spec fn deep_view(&self) -> ActionView {
        match self {
            Action::ListContainers => ActionView::ListContainers,
            Action::ListImages => ActionView::ListImages,
            Action::Show(rows) => ActionView::Show(rows.deep_view()),
            Action::Execute(commands) => ActionView::Execute(commands.deep_view()),
        }
    }
}

/// What an operation answers: the next thing to do, or why there is none.
pub open spec fn answer(result: Result<Action, Error>) -> Result<ActionView, Error> {
    match result {
        Ok(action) => Ok(action.deep_view()),
        Err(error) => Err(error),
    }
}

/// What the container runtime has reported so far.
#[derive(Debug, PartialEq, Eq)]
pub struct Runtime {
    /// All containers, once they were listed.
    pub containers: Option<Vec<Container>>,
    /// All images, once they were listed.
    pub images: Option<Vec<DockerImage>>,
}

/// What a `Runtime` holds.
pub struct RuntimeView {
    pub containers: Option<Seq<ContainerView>>,
    pub images: Option<Seq<DockerImageView>>,
}

impl DeepView for Runtime {
    type V = RuntimeView;

    open spec fn deep_view(&self) -> RuntimeView {
        RuntimeView { containers: self.containers.deep_view(), images: self.images.deep_view() }
    }
}

/// A container's name as the runtime reports it, without the slash that the
/// runtime may write before it.
pub open spec fn bare_name(reported: Seq<char>) -> Seq<char> {
    if reported.len() > 0 && reported[0] == '/' {
        reported.skip(1)
    } else {
        reported
    }
}

/// Whether one of the names `names` is `name`.
pub open spec fn is_named(names: Seq<Seq<char>>, name: Seq<char>) -> bool {
    exists|j: int| 0 <= j < names.len() && bare_name(#[trigger] names[j]) == name
}

/// Whether one of `containers` has the name `name`.
pub open spec fn spec_container_exists(containers: Seq<ContainerView>, name: Seq<char>) -> bool {
    exists|i: int|
        0 <= i < containers.len() && (#[trigger] containers[i]).names is Some && is_named(
            containers[i].names->0,
            name,
        )
}

/// Whether one of the records is the local image of the name `name`.
pub open spec fn local_image_exists(infos: Seq<InfoView>, name: Seq<char>) -> bool {
    exists|i: int|
        0 <= i < infos.len() && (#[trigger] infos[i]).repo == "tensorman"@ && infos[i].tag == name
}

/// The beginning of an image's ID that is shown in a table: its first
/// fifteen characters, or all of it where it has fewer.
pub open spec fn spec_short_id(id: Seq<char>) -> Seq<char> {
    if id.len() > 15 {
        id.take(15)
    } else {
        id
    }
}

/// The row of the table of images that shows a record.
pub open spec fn spec_row(info: InfoView) -> Seq<Seq<char>> {
    seq![info.repo, info.tag, spec_short_id(info.image_id), info.size]
}

/// The headings of the table of images.
pub open spec fn spec_headings() -> Seq<Seq<char>> {
    seq!["REPOSITORY"@, "TAG"@, "IMAGE ID"@, "SIZE"@]
}

impl RuntimeView {
    /// What listing the images answers: to fetch the images where they are
    /// not known, else to show the headings and one row for each record.
    pub open spec fn list(self) -> ActionView {
        match self.images {
            None => ActionView::ListImages,
            Some(images) => ActionView::Show(
                seq![spec_headings()] + spec_image_info(images).map_values(
                    |info: InfoView| spec_row(info),
                ),
            ),
        }
    }

    /// What removing the images that `argument` asks for answers.
    ///
    /// Where the images are not known, to fetch them. Where no record is the
    /// one asked for, that no image was found. Else to remove the image of
    /// each such record, in the order of the records.
    pub open spec fn remove(self, argument: Seq<char>, force: bool) -> Result<ActionView, Error> {
        match self.images {
            None => Ok(ActionView::ListImages),
            Some(images) => {
                let found = spec_image_info(images).filter(
                    |info: InfoView| info.matches(argument),
                );
                if found.len() == 0 {
                    Err(Error::ImageNotFound)
                } else {
                    Ok(
                        ActionView::Execute(
                            found.map_values(|info: InfoView| spec_remove_arguments(info, force)),
                        ),
                    )
                }
            },
        }
    }

    /// What running a command in a new container answers.
    ///
    /// Without a name, to run it. With a name: where the containers are not
    /// known, to fetch them; where one of them has the name already, that
    /// the container exists; else to run it.
    pub open spec fn run(
        self,
        image: ImageView,
        cmd: Seq<char>,
        name: Option<Seq<char>>,
        ports: Seq<Seq<char>>,
        as_root: bool,
        args: Option<Seq<Seq<char>>>,
        docker_flags: Option<Seq<Seq<char>>>,
        host: HostView,
    ) -> Result<ActionView, Error> {
        let command = spec_run_arguments(
            image,
            cmd,
            name,
            ports,
            as_root,
            args,
            docker_flags,
            host,
        );
        match name {
            None => Ok(ActionView::Execute(seq![command])),
            Some(name) => match self.containers {
                None => Ok(ActionView::ListContainers),
                Some(containers) => if spec_container_exists(containers, spec_namespaced(name)) {
                    Err(Error::ContainerExists)
                } else {
                    Ok(ActionView::Execute(seq![command]))
                },
            },
        }
    }

    /// What saving the user's container `container` as the local image
    /// `repo` answers.
    ///
    /// Where the containers are not known, to fetch them. Where none of them
    /// has the container's name, that the container was not found. Where the
    /// images are not known, to fetch them. Where one of them is the local
    /// image `repo`, that the image exists already. Else to commit the
    /// container under that name.
    pub open spec fn save(self, container: Seq<char>, repo: Seq<char>) -> Result<
        ActionView,
        Error,
    > {
        match self.containers {
            None => Ok(ActionView::ListContainers),
            Some(containers) => if !spec_container_exists(containers, spec_namespaced(container)) {
                Err(Error::ContainerNotFound)
            } else {
                match self.images {
                    None => Ok(ActionView::ListImages),
                    Some(images) => if local_image_exists(spec_image_info(images), repo) {
                        Err(Error::ImageAlreadyExists)
                    } else {
                        Ok(
                            ActionView::Execute(
                                seq![spec_commit_arguments(spec_namespaced(container), repo)],
                            ),
                        )
                    },
                }
            },
        }
    }
}

/// Whether one of the names `names`, as the runtime reports them, is `name`.
pub fn named(names: &Vec<String>, name: &str) -> (found: bool)
    ensures
        found == is_named(names.deep_view(), name@),
{
    let mut j: usize = 0;
    while j < names.len()
        invariant
            j <= names.len(),
            forall|k: int| 0 <= k < j ==> bare_name(#[trigger] names.deep_view()[k]) != name@,
        decreases names.len() - j,
    {
        let reported = names[j].as_str();
        assert(names.deep_view()[j as int] == reported@);
        let length = reported.unicode_len();
        let same = if length > 0 && reported.get_char(0) == '/' {
            let bare = reported.substring_char(1, length);
            same_text(bare, name)
        } else {
            same_text(reported, name)
        };
        if same {
            return true;
        }
        j += 1;
    }
    false
}

/// Whether one of `containers` has the name `name`.
pub fn container_exists(containers: &Vec<Container>, name: &str) -> (found: bool)
    ensures
        found == spec_container_exists(containers.deep_view(), name@),
{
    let mut i: usize = 0;
    while i < containers.len()
        invariant
            i <= containers.len(),
            forall|k: int|
                0 <= k < i ==> !((#[trigger] containers.deep_view()[k]).names is Some && is_named(
                    containers.deep_view()[k].names->0,
                    name@,
                )),
        decreases containers.len() - i,
    {
        assert(containers.deep_view()[i as int] == containers@[i as int].deep_view());
        match &containers[i].names {
            Some(names) => {
                if named(names, name) {
                    return true;
                }
            },
            None => {},
        }
        i += 1;
    }
    false
}

/// Whether one of the records is the local image of the name `name`.
pub fn local_image_found(infos: &Vec<Info>, name: &str) -> (found: bool)
    ensures
        found == local_image_exists(infos.deep_view(), name@),
{
    let mut i: usize = 0;
    while i < infos.len()
        invariant
            i <= infos.len(),
            forall|k: int|
                0 <= k < i ==> !((#[trigger] infos.deep_view()[k]).repo == "tensorman"@
                    && infos.deep_view()[k].tag == name@),
        decreases infos.len() - i,
    {
        assert(infos.deep_view()[i as int] == infos@[i as int].deep_view());
        if same_text(infos[i].repo.as_str(), "tensorman") && same_text(
            infos[i].tag.as_str(),
            name,
        ) {
            return true;
        }
        i += 1;
    }
    false
}

/// The beginning of an image's ID that is shown in a table.
pub fn short_id(id: &str) -> (short: String)
    ensures
        short@ == spec_short_id(id@),
{
    if id.unicode_len() > 15 {
        let short = id.substring_char(0, 15);
        short.to_owned()
    } else {
        id.to_owned()
    }
}

/// The row of the table of images that shows a record.
pub fn row(info: &Info) -> (cells: Vec<String>)
    ensures
        cells.deep_view() == spec_row(info.deep_view()),
{
    let mut cells: Vec<String> = Vec::new();
    push_text(&mut cells, info.repo.as_str());
    push_text(&mut cells, info.tag.as_str());
    let short = short_id(info.image_id.as_str());
    push_text(&mut cells, short.as_str());
    push_text(&mut cells, info.size.as_str());
    cells
}

/// The headings of the table of images.
pub fn headings() -> (cells: Vec<String>)
    ensures
        cells.deep_view() == spec_headings(),
{
    let mut cells: Vec<String> = Vec::new();
    push_text(&mut cells, "REPOSITORY");
    push_text(&mut cells, "TAG");
    push_text(&mut cells, "IMAGE ID");
    push_text(&mut cells, "SIZE");
    cells
}

impl Runtime {
    /// A runtime of which nothing is known yet.
    pub fn new() -> (runtime: Runtime)
        ensures
            runtime.containers is None,
            runtime.images is None,
    {
        Runtime { containers: None, images: None }
    }

    /// Takes in the list of all containers that the container runtime
    /// reported.
    pub fn containers(&mut self, reported: Vec<Container>)
        ensures
            final(self).containers == Some(reported),
            final(self).images == old(self).images,
    {
        self.containers = Some(reported);
    }

    /// Takes in the list of all images that the container runtime reported.
    pub fn images(&mut self, reported: Vec<DockerImage>)
        ensures
            final(self).images == Some(reported),
            final(self).containers == old(self).containers,
    {
        self.images = Some(reported);
    }

    /// Lists the images of the upstream repository and of the local one.
    pub fn list(&self) -> (action: Action)
        ensures
            action.deep_view() == self.deep_view().list(),
    {
        let images = match &self.images {
            None => {
                return Action::ListImages;
            },
            Some(images) => images,
        };
        let infos = iterate_image_info(images);
        let ghost views = infos.deep_view();
        let ghost each = |info: InfoView| spec_row(info);
        let mut rows: Vec<Vec<String>> = Vec::new();
        rows.push(headings());
        let mut i: usize = 0;
        while i < infos.len()
            invariant
                i <= infos.len(),
                views == infos.deep_view(),
                each == |info: InfoView| spec_row(info),
                rows.deep_view() == seq![spec_headings()] + views.take(i as int).map_values(each),
            decreases infos.len() - i,
        {
            let ghost before = rows.deep_view();
            let cells = row(&infos[i]);
            rows.push(cells);
            proof {
                assert(rows.deep_view() =~= before.push(spec_row(views[i as int])));
            }
            i += 1;
        }
        assert(views.take(i as int) =~= views);
        Action::Show(rows)
    }

    /// Removes the images that `argument` asks for, by tag or by a beginning
    /// of their ID.
    pub fn remove(&self, argument: &str, force: bool) -> (result: Result<Action, Error>)
        ensures
            answer(result) == self.deep_view().remove(argument@, force),
    {
        let images = match &self.images {
            None => {
                return Ok(Action::ListImages);
            },
            Some(images) => images,
        };
        let infos = iterate_image_info(images);
        let ghost views = infos.deep_view();
        let ghost asked = |info: InfoView| info.matches(argument@);
        let ghost each = |info: InfoView| spec_remove_arguments(info, force);
        let mut commands: Vec<Vec<String>> = Vec::new();
        let mut i: usize = 0;
        proof {
            reveal(Seq::filter);
        }
        while i < infos.len()
            invariant
                i <= infos.len(),
                views == infos.deep_view(),
                asked == |info: InfoView| info.matches(argument@),
                each == |info: InfoView| spec_remove_arguments(info, force),
                commands.deep_view() == views.take(i as int).filter(asked).map_values(each),
                commands.len() == views.take(i as int).filter(asked).len(),
            decreases infos.len() - i,
        {
            let ghost before = commands.deep_view();
            proof {
                reveal(Seq::filter);
                assert(views.take(i + 1).drop_last() =~= views.take(i as int));
            }
            if infos[i].field_matches(argument) {
                let command = docker_remove_image(&infos[i], force);
                commands.push(command);
                proof {
                    assert(commands.deep_view() =~= before.push(each(views[i as int])));
                }
            }
            i += 1;
        }
        assert(views.take(i as int) =~= views);
        if commands.len() == 0 {
            Err(Error::ImageNotFound)
        } else {
            Ok(Action::Execute(commands))
        }
    }

    /// Runs `cmd` in a new container of `image`, under the user's name
    /// `name` if one is given.
    pub fn run(
        &self,
        image: &Image,
        cmd: &str,
        name: Option<&str>,
        ports: &Vec<String>,
        as_root: bool,
        args: Option<&Vec<String>>,
        docker_flags: Option<&Vec<String>>,
        host: &Host,
    ) -> (result: Result<Action, Error>)
        ensures
            answer(result) == self.deep_view().run(
                image@,
                cmd@,
                name.deep_view(),
                ports.deep_view(),
                as_root,
                args.deep_view(),
                docker_flags.deep_view(),
                host.deep_view(),
            ),
    {
        match name {
            Some(name) => {
                let containers = match &self.containers {
                    None => {
                        return Ok(Action::ListContainers);
                    },
                    Some(containers) => containers,
                };
                let full = namespaced(name);
                if container_exists(containers, full.as_str()) {
                    return Err(Error::ContainerExists);
                }
            },
            None => {},
        }
        let command = run_arguments(image, cmd, name, ports, as_root, args, docker_flags, host);
        let mut commands: Vec<Vec<String>> = Vec::new();
        commands.push(command);
        assert(commands.deep_view() =~= seq![command.deep_view()]);
        Ok(Action::Execute(commands))
    }

    /// Saves the user's container `container` as the local image `repo`.
    pub fn save(&self, container: &str, repo: &str) -> (result: Result<Action, Error>)
        ensures
            answer(result) == self.deep_view().save(container@, repo@),
    {
        let containers = match &self.containers {
            None => {
                return Ok(Action::ListContainers);
            },
            Some(containers) => containers,
        };
        let full = namespaced(container);
        if !container_exists(containers, full.as_str()) {
            return Err(Error::ContainerNotFound);
        }
        let images = match &self.images {
            None => {
                return Ok(Action::ListImages);
            },
            Some(images) => images,
        };
        let infos = iterate_image_info(images);
        if local_image_found(&infos, repo) {
            return Err(Error::ImageAlreadyExists);
        }
        let command = commit_command(full.as_str(), repo);
        let mut commands: Vec<Vec<String>> = Vec::new();
        commands.push(command);
        assert(commands.deep_view() =~= seq![command.deep_view()]);
        Ok(Action::Execute(commands))
    }
}

/// Once the images are known, removing finds no image exactly where no
/// record is the one asked for; where one is, it gives as many commands as
/// records are.
pub proof fn lemma_remove_needs_match(runtime: RuntimeView, argument: Seq<char>, force: bool)
    requires
        runtime.images is Some,
    ensures
        runtime.remove(argument, force) == Err::<ActionView, Error>(Error::ImageNotFound) <==> (
        forall|i: int|
            0 <= i < spec_image_info(runtime.images->0).len() ==> !(#[trigger] spec_image_info(
                runtime.images->0,
            )[i]).matches(argument)),
        runtime.remove(argument, force) matches Ok(action) ==> action matches ActionView::Execute(
            commands,
        ) && commands.len() == spec_image_info(runtime.images->0).filter(
            |info: InfoView| info.matches(argument),
        ).len() && commands.len() > 0,
{
    let infos = spec_image_info(runtime.images->0);
    let asked = |info: InfoView| info.matches(argument);
    if forall|i: int| 0 <= i < infos.len() ==> !(#[trigger] infos[i]).matches(argument) {
        infos.lemma_all_neg_filter_empty(asked);
    } else {
        let i = choose|i: int| 0 <= i < infos.len() && (#[trigger] infos[i]).matches(argument);
        infos.lemma_filter_contains(asked, i);
    }
}

/// Where a container has the name that a run asks for, the run is refused
/// because the container exists, and nothing is carried out.
pub proof fn lemma_run_refuses_taken_name(
    runtime: RuntimeView,
    image: ImageView,
    cmd: Seq<char>,
    name: Seq<char>,
    ports: Seq<Seq<char>>,
    as_root: bool,
    args: Option<Seq<Seq<char>>>,
    docker_flags: Option<Seq<Seq<char>>>,
    host: HostView,
)
    requires
        runtime.containers is Some,
        spec_container_exists(runtime.containers->0, spec_namespaced(name)),
    ensures
        runtime.run(image, cmd, Some(name), ports, as_root, args, docker_flags, host) == Err::<
            ActionView,
            Error,
        >(Error::ContainerExists),
{
}

/// Where the container to save exists and a local image has the name asked
/// for, saving is refused because the image exists already. And whether or
/// not the container exists, nothing is committed over a local image that is
/// known.
pub proof fn lemma_save_refuses_taken_image(
    runtime: RuntimeView,
    container: Seq<char>,
    repo: Seq<char>,
)
    requires
        runtime.images is Some,
        local_image_exists(spec_image_info(runtime.images->0), repo),
    ensures
        runtime.containers is Some && spec_container_exists(
            runtime.containers->0,
            spec_namespaced(container),
        ) ==> runtime.save(container, repo) == Err::<ActionView, Error>(Error::ImageAlreadyExists),
        !(runtime.save(container, repo) matches Ok(ActionView::Execute(_))),
{
}

/// No check of an operation is skipped: commands are given only once every
/// listing that the operation looks at is known.
pub proof fn lemma_commands_come_last(
    runtime: RuntimeView,
    image: ImageView,
    cmd: Seq<char>,
    name: Seq<char>,
    ports: Seq<Seq<char>>,
    as_root: bool,
    args: Option<Seq<Seq<char>>>,
    docker_flags: Option<Seq<Seq<char>>>,
    host: HostView,
    container: Seq<char>,
    repo: Seq<char>,
    argument: Seq<char>,
    force: bool,
)
    ensures
        runtime.run(image, cmd, Some(name), ports, as_root, args, docker_flags, host) matches Ok(
            ActionView::Execute(_),
        ) ==> runtime.containers is Some,
        runtime.save(container, repo) matches Ok(ActionView::Execute(_))
            ==> runtime.containers is Some && runtime.images is Some,
        runtime.remove(argument, force) matches Ok(ActionView::Execute(_))
            ==> runtime.images is Some,
{
}

} // verus!
