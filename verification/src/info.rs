//! The images that the container runtime reports, cut down to those of the
//! two repositories that count here, one record for each tag.

use crate::text::{chars_of, same_text, starts_with};
use vstd::prelude::*;
use vstd::string::*;

verus! {

/// An image as the container runtime reports it.
#[derive(Debug, PartialEq, Eq)]
pub struct DockerImage {
    /// The image's ID.
    pub id: String,
    /// The names under which the image is known, each `REPOSITORY:TAG`.
    pub repo_tags: Vec<String>,
    /// When the image was made.
    pub created: String,
    /// How large the image is.
    pub size: String,
}

/// What a `DockerImage` holds.
pub struct DockerImageView {
    pub id: Seq<char>,
    pub repo_tags: Seq<Seq<char>>,
    pub created: Seq<char>,
    pub size: Seq<char>,
}

impl DeepView for DockerImage {
    type V = DockerImageView;

    open spec fn deep_view(&self) -> DockerImageView {
        DockerImageView {
            id: self.id@,
            repo_tags: self.repo_tags.deep_view(),
            created: self.created@,
            size: self.size@,
        }
    }
}

/// One tag of an image of the upstream repository or of the local one.
#[derive(Debug, PartialEq, Eq)]
pub struct Info {
    /// The repository.
    pub repo: String,
    /// The tag within the repository.
    pub tag: String,
    /// The ID of the image behind the tag.
    pub image_id: String,
    /// When the image was made.
    pub created: String,
    /// How large the image is.
    pub size: String,
}

/// What an `Info` holds.
pub struct InfoView {
    pub repo: Seq<char>,
    pub tag: Seq<char>,
    pub image_id: Seq<char>,
    pub created: Seq<char>,
    pub size: Seq<char>,
}

impl DeepView for Info {
    type V = InfoView;

    open spec fn deep_view(&self) -> InfoView {
        InfoView {
            repo: self.repo@,
            tag: self.tag@,
            image_id: self.image_id@,
            created: self.created@,
            size: self.size@,
        }
    }
}

/// Whether `repo` is one of the two repositories that count: the upstream
/// repository and the local one.
pub open spec fn is_valid_repo(repo: Seq<char>) -> bool {
    repo == "tensorflow/tensorflow"@ || repo == "tensorman"@
}

/// How many characters stand at the end of `name` behind its last colon;
/// all of them where it has none.
pub open spec fn tag_len(name: Seq<char>) -> nat
    decreases name.len(),
{
    if name.len() == 0 || name.last() == ':' {
        0
    } else {
        1 + tag_len(name.drop_last())
    }
}

/// The repository and the tag of an image name: what stands before its last
/// colon and what stands behind it. A name without a colon has neither.
pub open spec fn spec_split_name(name: Seq<char>) -> Option<(Seq<char>, Seq<char>)> {
    let behind = tag_len(name);
    if behind >= name.len() {
        None
    } else {
        Some((name.take(name.len() - behind - 1), name.skip(name.len() - behind)))
    }
}

/// The characters behind the last colon of a name hold no colon, and before
/// them stands a colon or nothing.
pub proof fn lemma_tag_len(name: Seq<char>)
    ensures
        tag_len(name) <= name.len(),
        forall|k: int| name.len() - tag_len(name) <= k < name.len() ==> name[k] != ':',
        tag_len(name) < name.len() ==> name[name.len() - tag_len(name) - 1] == ':',
    decreases name.len(),
{
    if name.len() > 0 && name.last() != ':' {
        let front = name.drop_last();
        lemma_tag_len(front);
        assert forall|k: int| name.len() - tag_len(name) <= k < name.len() implies name[k]
            != ':' by {
            if k < name.len() - 1 {
                assert(name[k] == front[k]);
            }
        }
    }
}

/// A name with a colon is its repository, a colon and its tag, and the tag
/// holds no colon. A name has neither exactly if it holds no colon.
pub proof fn lemma_split_name(name: Seq<char>)
    ensures
        match spec_split_name(name) {
            Some((repo, tag)) => name == repo + seq![':'] + tag && !tag.contains(':'),
            None => !name.contains(':'),
        },
{
    lemma_tag_len(name);
    match spec_split_name(name) {
        Some((repo, tag)) => {
            assert(name =~= repo + seq![':'] + tag);
            assert forall|k: int| 0 <= k < tag.len() implies tag[k] != ':' by {
                assert(tag[k] == name[name.len() - tag_len(name) + k]);
            }
        },
        None => {},
    }
}

impl InfoView {
    /// Whether the record is the one that `needle` asks for. A tag of the
    /// local repository is found by its tag alone. A tag of the upstream
    /// repository is found by its tag too, and by any beginning of its
    /// image's ID.
    pub open spec fn matches(self, needle: Seq<char>) -> bool {
        if self.repo == "tensorman"@ {
            self.tag == needle
        } else if self.repo == "tensorflow/tensorflow"@ {
            self.tag == needle || needle.is_prefix_of(self.image_id)
        } else {
            false
        }
    }

    /// The record for one name of an image, if the name is of a repository
    /// that counts.
    pub open spec fn of_name(image: DockerImageView, name: Seq<char>) -> Option<InfoView> {
        match spec_split_name(name) {
            Some((repo, tag)) => if is_valid_repo(repo) {
                Some(
                    InfoView {
                        repo,
                        tag,
                        image_id: image.id,
                        created: image.created,
                        size: image.size,
                    },
                )
            } else {
                None
            },
            None => None,
        }
    }

    /// The records for all names of an image, in the order of the names.
    pub open spec fn of_image(image: DockerImageView) -> Seq<InfoView> {
        image.repo_tags.filter_map(|name: Seq<char>| Self::of_name(image, name))
    }
}

/// The records for all `images`: for each image in turn and each of its
/// names in turn, one record if the name is of a repository that counts.
pub open spec fn spec_image_info(images: Seq<DockerImageView>) -> Seq<InfoView> {
    images.flat_map(|image: DockerImageView| InfoView::of_image(image))
}

impl Info {
    /// Whether this is the record that `needle` asks for: by its tag, or,
    /// for an image of the upstream repository, by a beginning of its ID.
    pub fn field_matches(&self, needle: &str) -> (found: bool)
        ensures
            found == self.deep_view().matches(needle@),
    {
        if same_text(self.repo.as_str(), "tensorman") {
            same_text(self.tag.as_str(), needle)
        } else if same_text(self.repo.as_str(), "tensorflow/tensorflow") {
            same_text(self.tag.as_str(), needle) || starts_with(self.image_id.as_str(), needle)
        } else {
            false
        }
    }
}

/// Whether `repo` is one of the two repositories that count.
pub fn valid_repo(repo: &str) -> (valid: bool)
    ensures
        valid == is_valid_repo(repo@),
{
    same_text(repo, "tensorflow/tensorflow") || same_text(repo, "tensorman")
}

/// Parts an image name at its last colon into repository and tag.
pub fn split_name(name: &str) -> (parts: Option<(String, String)>)
    ensures
        match parts {
            Some((repo, tag)) => spec_split_name(name@) == Some((repo@, tag@)),
            None => spec_split_name(name@) is None,
        },
{
    let chars = chars_of(name);
    let length = chars.len();
    let mut at: usize = length;
    assert(name@.take(at as int) =~= name@);
    while at > 0 && chars[at - 1] != ':'
        invariant
            at <= length,
            length == chars.len(),
            chars@ == name@,
            tag_len(name@) == (length - at) + tag_len(name@.take(at as int)),
        decreases at,
    {
        assert(name@.take(at as int).drop_last() =~= name@.take(at - 1));
        at -= 1;
    }
    if at == 0 {
        return None;
    }
    let repo = name.substring_char(0, at - 1).to_owned();
    let tag = name.substring_char(at, length).to_owned();
    Some((repo, tag))
}

/// The records for one image: one for each of its names that is of a
/// repository that counts, in the order of the names.
pub fn image_info(image: &DockerImage) -> (infos: Vec<Info>)
    ensures
        infos.deep_view() == InfoView::of_image(image.deep_view()),
{
    let mut infos: Vec<Info> = Vec::new();
    let ghost view = image.deep_view();
    let ghost record = |name: Seq<char>| InfoView::of_name(view, name);
    let mut j: usize = 0;
    while j < image.repo_tags.len()
        invariant
            j <= image.repo_tags.len(),
            view == image.deep_view(),
            record == |name: Seq<char>| InfoView::of_name(view, name),
            infos.deep_view() == view.repo_tags.take(j as int).filter_map(record),
        decreases image.repo_tags.len() - j,
    {
        let name = image.repo_tags[j].as_str();
        proof {
            view.repo_tags.lemma_filter_map_take_succ(record, j as int);
        }
        match split_name(name) {
            Some((repo, tag)) => {
                if valid_repo(repo.as_str()) {
                    let info = Info {
                        repo,
                        tag,
                        image_id: image.id.clone(),
                        created: image.created.clone(),
                        size: image.size.clone(),
                    };
                    infos.push(info);
                }
            },
            None => {},
        }
        j += 1;
    }
    assert(view.repo_tags.take(j as int) =~= view.repo_tags);
    infos
}

/// The records for the images that count among those that the container
/// runtime reported: one for each name of an image that is of the upstream
/// repository or of the local one, in the order reported.
pub fn iterate_image_info(images: &Vec<DockerImage>) -> (infos: Vec<Info>)
    ensures
        infos.deep_view() == spec_image_info(images.deep_view()),
{
    let mut infos: Vec<Info> = Vec::new();
    let ghost views = images.deep_view();
    let mut i: usize = 0;
    while i < images.len()
        invariant
            i <= images.len(),
            views == images.deep_view(),
            infos.deep_view() == spec_image_info(views.take(i as int)),
        decreases images.len() - i,
    {
        let mut more = image_info(&images[i]);
        proof {
            let each = |image: DockerImageView| InfoView::of_image(image);
            let done = views.take(i as int);
            assert(views.take(i + 1) =~= done.push(views[i as int]));
            assert(done.push(views[i as int]).map_values(each) =~= done.map_values(each).push(
                each(views[i as int]),
            ));
            done.map_values(each).lemma_flatten_push(each(views[i as int]));
        }
        push_infos(&mut infos, &mut more);
        i += 1;
    }
    assert(views.take(i as int) =~= views);
    infos
}

/// Moves the records of `more` behind those of `infos`.
fn push_infos(infos: &mut Vec<Info>, more: &mut Vec<Info>)
    ensures
        final(infos).deep_view() == old(infos).deep_view() + old(more).deep_view(),
{
    infos.append(more);
}

} // verus!
