//! The configuration files: the document that one holds, the configuration
//! that it stands for, and which of the files that were found counts.

use crate::error::Error;
use crate::image::{ImageBuf, ImageSourceBuf, ImageView, SourceView, TagVariants};
use crate::text::copy_texts;
use vstd::prelude::*;

verus! {

/// A configuration file as it is written: every key is optional.
#[derive(Debug, PartialEq, Eq)]
pub struct RawConfig {
    /// The name of a local image.
    pub image: Option<String>,
    /// A tag of the upstream repository.
    pub tag: Option<String>,
    /// The names of the variants asked for.
    pub variants: Option<Vec<String>>,
    /// Flags to hand to the container runtime when it runs a container.
    pub docker_flags: Option<Vec<String>>,
}

/// What a `RawConfig` holds.
pub struct RawConfigView {
    pub image: Option<Seq<char>>,
    pub tag: Option<Seq<char>>,
    pub variants: Option<Seq<Seq<char>>>,
    pub docker_flags: Option<Seq<Seq<char>>>,
}

impl DeepView for RawConfig {
    type V = RawConfigView;

    open spec fn deep_view(&self) -> RawConfigView {
        RawConfigView {
            image: self.image.deep_view(),
            tag: self.tag.deep_view(),
            variants: self.variants.deep_view(),
            docker_flags: self.docker_flags.deep_view(),
        }
    }
}

/// What a configuration file stands for.
#[derive(Debug, PartialEq, Eq)]
pub struct Config {
    /// The image to use, if the file names one.
    pub image: Option<ImageBuf>,
    /// Flags to hand to the container runtime when it runs a container.
    pub docker_flags: Option<Vec<String>>,
}

/// What a `Config` holds.
pub struct ConfigView {
    pub image: Option<ImageView>,
    pub docker_flags: Option<Seq<Seq<char>>>,
}

impl DeepView for Config {
    type V = ConfigView;

    open spec fn deep_view(&self) -> ConfigView {
        ConfigView {
            image: self.image.deep_view(),
            docker_flags: self.docker_flags.deep_view(),
        }
    }
}

/// What was found of one file that says which image to use.
#[derive(Debug, PartialEq, Eq)]
pub enum Layer<T> {
    /// There is no such file.
    Absent,
    /// There is such a file, and it cannot be understood.
    Malformed,
    /// There is such a file, and this is what it holds.
    Present(T),
}

impl RawConfigView {
    /// The document without any key.
    pub open spec fn empty() -> RawConfigView {
        RawConfigView { image: None, tag: None, variants: None, docker_flags: None }
    }

    /// Whether the document names an image, local or upstream.
    pub open spec fn names_image(self) -> bool {
        self.image is Some || self.tag is Some
    }

    /// The document that counts, given what was found of the project's file
    /// and of the user's.
    ///
    /// A malformed file that is consulted is an error. The project's file
    /// comes first, and where it names an image the user's file is not
    /// consulted. Where it names none, the image is the one that the user's
    /// file names, and the flags stay those of the project's file. Without a
    /// project's file the user's file counts, and without either the empty
    /// document.
    pub open spec fn chosen(project: Layer<RawConfigView>, user: Layer<RawConfigView>) -> Result<
        RawConfigView,
        Error,
    > {
        match project {
            Layer::Malformed => Err(Error::Configure),
            Layer::Present(local) => if local.names_image() {
                Ok(local)
            } else {
                match user {
                    Layer::Malformed => Err(Error::Configure),
                    Layer::Present(wide) => Ok(
                        RawConfigView {
                            image: wide.image,
                            tag: wide.tag,
                            variants: wide.variants,
                            docker_flags: local.docker_flags,
                        },
                    ),
                    Layer::Absent => Ok(local),
                }
            },
            Layer::Absent => match user {
                Layer::Malformed => Err(Error::Configure),
                Layer::Present(wide) => Ok(wide),
                Layer::Absent => Ok(Self::empty()),
            },
        }
    }

    /// The document that stands for a configuration. A local image is written
    /// under `image`, an upstream tag under `tag`; the variants are written
    /// only where there are any.
    pub open spec fn of_config(config: ConfigView) -> RawConfigView {
        match config.image {
            None => RawConfigView {
                image: None,
                tag: None,
                variants: None,
                docker_flags: config.docker_flags,
            },
            Some(image) => RawConfigView {
                image: match image.source {
                    SourceView::Container(name) => Some(name),
                    SourceView::Tensorflow(_) => None,
                },
                tag: match image.source {
                    SourceView::Container(_) => None,
                    SourceView::Tensorflow(tag) => Some(tag),
                },
                variants: if image.variants.spec_is_empty() {
                    None
                } else {
                    Some(image.variants.spec_tokens())
                },
                docker_flags: config.docker_flags,
            },
        }
    }
}

impl ConfigView {
    /// The configuration that a document stands for. A local image goes
    /// before an upstream tag; a document with neither names no image,
    /// whatever variants it lists.
    pub open spec fn of_raw(raw: RawConfigView) -> ConfigView {
        let variants = TagVariants::spec_parse(
            match raw.variants {
                Some(names) => names,
                None => Seq::empty(),
            },
        );
        ConfigView {
            image: match (raw.image, raw.tag) {
                (Some(name), _) => Some(ImageView { variants, source: SourceView::Container(name) }),
                (None, Some(tag)) => Some(
                    ImageView { variants, source: SourceView::Tensorflow(tag) },
                ),
                (None, None) => None,
            },
            docker_flags: raw.docker_flags,
        }
    }

    /// The configuration that counts, given what was found of the project's
    /// file and of the user's.
    pub open spec fn chosen(project: Layer<RawConfigView>, user: Layer<RawConfigView>) -> Result<
        ConfigView,
        Error,
    > {
        match RawConfigView::chosen(project, user) {
            Ok(raw) => Ok(Self::of_raw(raw)),
            Err(error) => Err(error),
        }
    }
}

impl<T: DeepView> DeepView for Layer<T> {
    type V = Layer<T::V>;

    open spec fn deep_view(&self) -> Layer<T::V> {
        match self {
            Layer::Absent => Layer::Absent,
            Layer::Malformed => Layer::Malformed,
            Layer::Present(held) => Layer::Present(held.deep_view()),
        }
    }
}

impl Default for RawConfig {
    /// The document without any key.
    fn default() -> (raw: RawConfig)
        ensures
            raw.deep_view() == RawConfigView::empty(),
    {
        RawConfig { image: None, tag: None, variants: None, docker_flags: None }
    }
}

impl RawConfig {
    /// Picks the document that counts from what was found of the project's
    /// configuration file and of the user's.
    pub fn read(project: Layer<RawConfig>, user: Layer<RawConfig>) -> (chosen: Result<
        RawConfig,
        Error,
    >)
        ensures
            match chosen {
                Ok(raw) => RawConfigView::chosen(project.deep_view(), user.deep_view()) == Ok::<
                    RawConfigView,
                    Error,
                >(raw.deep_view()),
                Err(error) => RawConfigView::chosen(project.deep_view(), user.deep_view())
                    == Err::<RawConfigView, Error>(error),
            },
    {
        match project {
            Layer::Malformed => Err(Error::Configure),
            Layer::Present(local) => {
                if local.image.is_some() || local.tag.is_some() {
                    Ok(local)
                } else {
                    match user {
                        Layer::Malformed => Err(Error::Configure),
                        Layer::Present(wide) => Ok(
                            RawConfig {
                                image: wide.image,
                                tag: wide.tag,
                                variants: wide.variants,
                                docker_flags: local.docker_flags,
                            },
                        ),
                        Layer::Absent => Ok(local),
                    }
                }
            },
            Layer::Absent => match user {
                Layer::Malformed => Err(Error::Configure),
                Layer::Present(wide) => Ok(wide),
                Layer::Absent => Ok(RawConfig::default()),
            },
        }
    }

    /// The document that stands for `config`, as it is written to the user's
    /// configuration file.
    pub fn from(config: &Config) -> (raw: RawConfig)
        ensures
            raw.deep_view() == RawConfigView::of_config(config.deep_view()),
    {
        let docker_flags = match &config.docker_flags {
            Some(flags) => Some(copy_texts(flags)),
            None => None,
        };
        match &config.image {
            None => RawConfig { image: None, tag: None, variants: None, docker_flags },
            Some(image) => {
                let variants = if image.variants.is_empty() {
                    None
                } else {
                    Some(image.variants.to_tokens())
                };
                match &image.source {
                    ImageSourceBuf::Container(name) => RawConfig {
                        image: Some(name.clone()),
                        tag: None,
                        variants,
                        docker_flags,
                    },
                    ImageSourceBuf::Tensorflow(tag) => RawConfig {
                        image: None,
                        tag: Some(tag.clone()),
                        variants,
                        docker_flags,
                    },
                }
            },
        }
    }
}

impl Config {
    /// The configuration that a document stands for.
    pub fn from(raw: RawConfig) -> (config: Config)
        ensures
            config.deep_view() == ConfigView::of_raw(raw.deep_view()),
    {
        let RawConfig { docker_flags, image, tag, variants } = raw;
        let variants = match &variants {
            Some(names) => TagVariants::parse(names),
            None => TagVariants::empty(),
        };
        let source = match (image, tag) {
            (Some(name), _) => ImageSourceBuf::Container(name),
            (None, Some(tag)) => ImageSourceBuf::Tensorflow(tag),
            (None, None) => {
                return Config { docker_flags, image: None };
            },
        };
        Config { docker_flags, image: Some(ImageBuf { variants, source }) }
    }

    /// Reads the configuration from what was found of the project's
    /// configuration file and of the user's. The project's file goes before
    /// the user's; with neither, the configuration names no image and no
    /// flags.
    pub fn read(project: Layer<RawConfig>, user: Layer<RawConfig>) -> (config: Result<
        Config,
        Error,
    >)
        ensures
            match config {
                Ok(read) => ConfigView::chosen(project.deep_view(), user.deep_view()) == Ok::<
                    ConfigView,
                    Error,
                >(read.deep_view()),
                Err(error) => ConfigView::chosen(project.deep_view(), user.deep_view()) == Err::<
                    ConfigView,
                    Error,
                >(error),
            },
    {
        match RawConfig::read(project, user) {
            Ok(raw) => Ok(Config::from(raw)),
            Err(error) => Err(error),
        }
    }

    /// The document to write to the user's configuration file, so that it
    /// stands for this configuration.
    pub fn write(&self) -> (raw: RawConfig)
        ensures
            raw.deep_view() == RawConfigView::of_config(self.deep_view()),
    {
        RawConfig::from(self)
    }
}

} // verus!
