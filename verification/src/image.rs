//! Image identities: a tag of the upstream TensorFlow repository with its
//! variants, or an image built locally, and the reference that names either
//! to the container runtime.

use crate::text::same_text;
use vstd::prelude::*;
use vstd::string::*;

verus! {

/// The optional capabilities that a tag of the upstream repository can carry.
#[derive(Clone, Copy, Debug, PartialEq, Eq, Structural)]
pub struct TagVariants {
    /// GPU compute.
    pub gpu: bool,
    /// Python 3.
    pub python3: bool,
    /// Jupyter preinstalled.
    pub jupyter: bool,
}

impl TagVariants {
    /// The variants that a list of names asks for: a variant is in the set
    /// exactly if its name occurs in the list. Other names count for nothing.
    pub open spec fn spec_parse(tokens: Seq<Seq<char>>) -> TagVariants {
        TagVariants {
            gpu: tokens.contains("gpu"@),
            python3: tokens.contains("python3"@),
            jupyter: tokens.contains("jupyter"@),
        }
    }

    /// The names of the variants in the set, GPU first, Jupyter last.
    pub open spec fn spec_tokens(self) -> Seq<Seq<char>> {
        (if self.gpu { seq!["gpu"@] } else { seq![] })
            + (if self.python3 { seq!["python3"@] } else { seq![] })
            + (if self.jupyter { seq!["jupyter"@] } else { seq![] })
    }

    /// What the set adds to a tag of the upstream repository.
    pub open spec fn spec_suffix(self) -> Seq<char> {
        (if self.gpu { "-gpu"@ } else { Seq::<char>::empty() })
            + (if self.python3 { "-py3"@ } else { Seq::<char>::empty() })
            + (if self.jupyter { "-jupyter"@ } else { Seq::<char>::empty() })
    }

    /// Whether no variant is in the set.
    pub open spec fn spec_is_empty(self) -> bool {
        !self.gpu && !self.python3 && !self.jupyter
    }

    /// No two variants share a name.
    pub proof fn names_differ()
        ensures
            "gpu"@ != "python3"@,
            "gpu"@ != "jupyter"@,
            "python3"@ != "jupyter"@,
    {
        reveal_strlit("gpu");
        reveal_strlit("python3");
        reveal_strlit("jupyter");
        assert("python3"@[0] == 'p');
        assert("jupyter"@[0] == 'j');
    }

    /// The names of all variants, in the one order in which they are written
    /// down.
    pub open spec fn names() -> Seq<Seq<char>> {
        seq!["gpu"@, "python3"@, "jupyter"@]
    }

    /// Whatever names a set is read from, the names it is written with are
    /// those of the three variants that occur among them, each once and in
    /// the fixed order.
    pub proof fn lemma_tokens_of_parsed(tokens: Seq<Seq<char>>)
        ensures
            Self::spec_parse(tokens).spec_tokens() == Self::names().filter(
                |name: Seq<char>| tokens.contains(name),
            ),
    {
        reveal_with_fuel(Seq::filter, 4);
    }

    /// Two lists that hold the same names, in whatever order and however
    /// often, are read as the same set.
    pub proof fn lemma_parse_ignores_order(first: Seq<Seq<char>>, second: Seq<Seq<char>>)
        requires
            forall|name: Seq<char>| first.contains(name) <==> second.contains(name),
        ensures
            Self::spec_parse(first) == Self::spec_parse(second),
    {
    }

    /// A set that is written down and read again is the same set.
    pub proof fn lemma_parse_of_tokens(self)
        ensures
            Self::spec_parse(self.spec_tokens()) == self,
    {
        Self::names_differ();
        let written = self.spec_tokens();
        if self.gpu {
            assert(written[0] == "gpu"@);
        }
        if self.python3 {
            assert(written[if self.gpu { 1int } else { 0int }] == "python3"@);
        }
        if self.jupyter {
            assert(written[written.len() - 1] == "jupyter"@);
        }
    }

    /// The set without any variant.
    pub fn empty() -> (variants: TagVariants)
        ensures
            variants.spec_is_empty(),
    {
        TagVariants { gpu: false, python3: false, jupyter: false }
    }

    /// Whether no variant is in the set.
    pub fn is_empty(&self) -> (none: bool)
        ensures
            none == self.spec_is_empty(),
    {
        !self.gpu && !self.python3 && !self.jupyter
    }

    /// Reads a set from variant names. Names that stand for no variant are
    /// passed over; order and repetition make no difference.
    pub fn parse(tokens: &Vec<String>) -> (variants: TagVariants)
        ensures
            variants == Self::spec_parse(tokens.deep_view()),
    {
        assert(tokens.deep_view().skip(0) =~= tokens.deep_view());
        Self::parse_from(tokens, 0)
    }

    /// Reads a set from the names at `start` and after it.
    pub(crate) fn parse_from(tokens: &Vec<String>, start: usize) -> (variants: TagVariants)
        requires
            start <= tokens.len(),
        ensures
            variants == Self::spec_parse(tokens.deep_view().skip(start as int)),
    {
        let mut variants = TagVariants::empty();
        let ghost names = tokens.deep_view().skip(start as int);
        let mut i: usize = start;
        while i < tokens.len()
            invariant
                start <= i <= tokens.len(),
                names == tokens.deep_view().skip(start as int),
                variants == Self::spec_parse(names.take(i - start)),
            decreases tokens.len() - i,
        {
            let token = tokens[i].as_str();
            proof {
                Self::names_differ();
                let before = names.take(i - start);
                let after = names.take(i - start + 1);
                assert forall|name: Seq<char>|
                    after.contains(name) <==> before.contains(name) || name == token@ by {
                    if name == token@ {
                        assert(after[before.len() as int] == name);
                    }
                }
            }
            if same_text(token, "gpu") {
                variants.gpu = true;
            } else if same_text(token, "python3") {
                variants.python3 = true;
            } else if same_text(token, "jupyter") {
                variants.jupyter = true;
            }
            i += 1;
        }
        proof {
            assert(names.take(i - start) =~= names);
        }
        variants
    }

    /// The names of the variants in the set, in the one order in which they
    /// are written down: GPU, Python 3, Jupyter.
    pub fn to_tokens(&self) -> (tokens: Vec<String>)
        ensures
            tokens.deep_view() == self.spec_tokens(),
    {
        let mut tokens: Vec<String> = Vec::new();
        if self.gpu {
            tokens.push(String::from_str("gpu"));
        }
        if self.python3 {
            tokens.push(String::from_str("python3"));
        }
        if self.jupyter {
            tokens.push(String::from_str("jupyter"));
        }
        tokens
    }

    /// What the set adds to a tag of the upstream repository: `-gpu`, `-py3`
    /// and `-jupyter`, in this order, each only if its variant is in the set.
    pub fn to_suffix(&self) -> (suffix: String)
        ensures
            suffix@ == self.spec_suffix(),
    {
        let mut suffix = String::new();
        if self.gpu {
            suffix.append("-gpu");
        }
        if self.python3 {
            suffix.append("-py3");
        }
        if self.jupyter {
            suffix.append("-jupyter");
        }
        suffix
    }
}

/// Where an image comes from, with the name it has there.
#[derive(Debug, PartialEq, Eq)]
pub enum ImageSourceBuf {
    /// An image built locally, by its name.
    Container(String),
    /// An image of the upstream TensorFlow repository, by its tag.
    Tensorflow(String),
}

/// Where an image comes from, with a borrowed name.
#[derive(Debug, PartialEq, Eq)]
pub enum ImageSource<'a> {
    /// An image built locally, by its name.
    Container(&'a str),
    /// An image of the upstream TensorFlow repository, by its tag.
    Tensorflow(&'a str),
}

/// What an image source is, whoever owns its text.
pub enum SourceView {
    /// An image built locally, by its name.
    Container(Seq<char>),
    /// An image of the upstream TensorFlow repository, by its tag.
    Tensorflow(Seq<char>),
}

impl View for ImageSourceBuf {
    type V = SourceView;

    open spec fn view(&self) -> SourceView {
        match self {
            ImageSourceBuf::Container(name) => SourceView::Container(name@),
            ImageSourceBuf::Tensorflow(tag) => SourceView::Tensorflow(tag@),
        }
    }
}

impl<'a> View for ImageSource<'a> {
    type V = SourceView;

    open spec fn view(&self) -> SourceView {
        match self {
            ImageSource::Container(name) => SourceView::Container(name@),
            ImageSource::Tensorflow(tag) => SourceView::Tensorflow(tag@),
        }
    }
}

impl SourceView {
    /// The source that a word names: a local image where the word begins
    /// with `=`, by the rest of the word, else the upstream tag of that name.
    pub open spec fn of_word(word: Seq<char>) -> SourceView {
        if word.len() > 0 && word[0] == '=' {
            SourceView::Container(word.skip(1))
        } else {
            SourceView::Tensorflow(word)
        }
    }
}

impl Clone for ImageSourceBuf {
    fn clone(&self) -> (copy: Self)
        ensures
            copy@ == self@,
    {
        match self {
            ImageSourceBuf::Container(name) => ImageSourceBuf::Container(name.clone()),
            ImageSourceBuf::Tensorflow(tag) => ImageSourceBuf::Tensorflow(tag.clone()),
        }
    }
}

impl ImageSourceBuf {
    /// The same source with its text borrowed.
    pub fn as_source(&self) -> (source: ImageSource<'_>)
        ensures
            source@ == self@,
    {
        match self {
            ImageSourceBuf::Container(name) => ImageSource::Container(name.as_str()),
            ImageSourceBuf::Tensorflow(tag) => ImageSource::Tensorflow(tag.as_str()),
        }
    }

    /// Reads a source from one word: `=NAME` is the local image `NAME`, any
    /// other word is a tag of the upstream repository.
    pub fn parse(word: &str) -> (source: ImageSourceBuf)
        ensures
            source@ == SourceView::of_word(word@),
    {
        let length = word.unicode_len();
        if length > 0 && word.get_char(0) == '=' {
            let name = word.substring_char(1, length);
            ImageSourceBuf::Container(name.to_owned())
        } else {
            ImageSourceBuf::Tensorflow(word.to_owned())
        }
    }
}

impl<'a> ImageSource<'a> {
    /// The same source with text of its own.
    pub fn to_buf(&self) -> (source: ImageSourceBuf)
        ensures
            source@ == self@,
    {
        match self {
            ImageSource::Container(name) => ImageSourceBuf::Container((*name).to_owned()),
            ImageSource::Tensorflow(tag) => ImageSourceBuf::Tensorflow((*tag).to_owned()),
        }
    }
}

/// What an image is, whoever owns its text.
pub struct ImageView {
    /// The variants asked for.
    pub variants: TagVariants,
    /// Where the image comes from.
    pub source: SourceView,
}

impl ImageView {
    /// The reference that names the image to the container runtime. A local
    /// image is `tensorman:NAME`, whatever its variants. An upstream image is
    /// `tensorflow/tensorflow:TAG` with the suffix of its variants.
    pub open spec fn reference(self) -> Seq<char> {
        match self.source {
            SourceView::Container(name) => "tensorman:"@ + name,
            SourceView::Tensorflow(tag) => "tensorflow/tensorflow:"@ + tag
                + self.variants.spec_suffix(),
        }
    }

    /// The image as it is shown to the user: a local image by its bare name,
    /// an upstream image by its reference.
    pub open spec fn shown(self) -> Seq<char> {
        match self.source {
            SourceView::Container(name) => name,
            SourceView::Tensorflow(_) => self.reference(),
        }
    }

    /// The image that is used where nothing names another: the upstream tag
    /// `latest` without variants.
    pub open spec fn fallback() -> ImageView {
        ImageView {
            variants: TagVariants { gpu: false, python3: false, jupyter: false },
            source: SourceView::Tensorflow("latest"@),
        }
    }
}

/// A TensorFlow image, identified by its source and its variants.
#[derive(Debug, PartialEq, Eq)]
pub struct ImageBuf {
    /// The variants asked for.
    pub variants: TagVariants,
    /// Where the image comes from.
    pub source: ImageSourceBuf,
}

/// A TensorFlow image, identified by its source and its variants, with
/// borrowed text.
#[derive(Debug, PartialEq, Eq)]
pub struct Image<'a> {
    /// The variants asked for.
    pub variants: TagVariants,
    /// Where the image comes from.
    pub source: ImageSource<'a>,
}

impl View for ImageBuf {
    type V = ImageView;

    open spec fn view(&self) -> ImageView {
        ImageView { variants: self.variants, source: self.source@ }
    }
}

impl DeepView for ImageBuf {
    type V = ImageView;

    open spec fn deep_view(&self) -> ImageView {
        self@
    }
}

impl<'a> View for Image<'a> {
    type V = ImageView;

    open spec fn view(&self) -> ImageView {
        ImageView { variants: self.variants, source: self.source@ }
    }
}

impl Clone for ImageBuf {
    fn clone(&self) -> (copy: Self)
        ensures
            copy@ == self@,
    {
        ImageBuf { variants: self.variants, source: self.source.clone() }
    }
}

impl ImageBuf {
    /// The same image with its text borrowed.
    pub fn as_image(&self) -> (image: Image<'_>)
        ensures
            image@ == self@,
    {
        Image { variants: self.variants, source: self.source.as_source() }
    }

    /// The image that is used where nothing names another.
    pub fn fallback() -> (image: ImageBuf)
        ensures
            image@ == ImageView::fallback(),
    {
        ImageBuf {
            variants: TagVariants::empty(),
            source: ImageSourceBuf::Tensorflow(String::from_str("latest")),
        }
    }
}

impl<'a> Image<'a> {
    /// The same image with text of its own.
    pub fn to_buf(&self) -> (image: ImageBuf)
        ensures
            image@ == self@,
    {
        ImageBuf { variants: self.variants, source: self.source.to_buf() }
    }

    /// The reference that names the image to the container runtime.
    pub fn to_reference(&self) -> (reference: String)
        ensures
            reference@ == self@.reference(),
    {
        match self.source {
            ImageSource::Container(name) => {
                let mut reference = String::from_str("tensorman:");
                reference.append(name);
                reference
            },
            ImageSource::Tensorflow(tag) => {
                let mut reference = String::from_str("tensorflow/tensorflow:");
                reference.append(tag);
                let suffix = self.variants.to_suffix();
                reference.append(suffix.as_str());
                reference
            },
        }
    }

    /// The image as it is shown to the user.
    pub fn display(&self) -> (shown: String)
        ensures
            shown@ == self@.shown(),
    {
        match self.source {
            ImageSource::Container(name) => name.to_owned(),
            ImageSource::Tensorflow(_) => self.to_reference(),
        }
    }

    /// The arguments with which the container runtime fetches the image:
    /// `pull` and the image's reference.
    pub fn pull(&self) -> (arguments: Vec<String>)
        ensures
            arguments.deep_view() == seq!["pull"@, self@.reference()],
    {
        let mut arguments: Vec<String> = Vec::new();
        arguments.push(String::from_str("pull"));
        arguments.push(self.to_reference());
        arguments
    }
}

} // verus!
