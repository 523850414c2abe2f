//! Which image a command works on: the command line goes before the
//! project's toolchain file, the toolchain file before the configuration
//! files, and all of them before the built-in default.

use crate::config::{Config, ConfigView, Layer, RawConfig, RawConfigView};
use crate::error::Error;
use crate::image::{ImageBuf, ImageSourceBuf, ImageView, SourceView, TagVariants};
use crate::toolchain::{pinned_image, toolchain_override};
use vstd::prelude::*;
use vstd::string::*;

verus! {

/// The source that an override on the command line names: `+TAG` is the
/// upstream tag `TAG`, `=NAME` the local image `NAME`. Any other word is no
/// override.
pub open spec fn spec_override(token: Seq<char>) -> Option<SourceView> {
    if token.len() > 0 && token[0] == '+' {
        Some(SourceView::Tensorflow(token.skip(1)))
    } else if token.len() > 0 && token[0] == '=' {
        Some(SourceView::Container(token.skip(1)))
    } else {
        None
    }
}

/// Reads an override from the command line: `+TAG` or `=NAME`.
pub fn parse_override(token: &str) -> (source: Result<ImageSourceBuf, Error>)
    ensures
        match source {
            Ok(named) => spec_override(token@) == Some(named@),
            Err(error) => error == Error::ArgumentUsage && spec_override(token@) is None,
        },
{
    let length = token.unicode_len();
    if length == 0 {
        return Err(Error::ArgumentUsage);
    }
    let first = token.get_char(0);
    if first == '+' {
        let tag = token.substring_char(1, length);
        Ok(ImageSourceBuf::Tensorflow(tag.to_owned()))
    } else if first == '=' {
        let name = token.substring_char(1, length);
        Ok(ImageSourceBuf::Container(name.to_owned()))
    } else {
        Err(Error::ArgumentUsage)
    }
}

/// The image that counts.
///
/// Its source is the one that the override names; without an override that
/// of the toolchain file; without a toolchain file that of the configuration;
/// and without any of them the upstream tag `latest`. Its variants are those
/// that the command line flags ask for, if they ask for any: they replace the
/// others and are never added to them. Else they are those of the toolchain
/// file, without one those of the configuration, and without either none.
pub open spec fn spec_select(
    overriding: Option<SourceView>,
    flagged: TagVariants,
    toolchain: Option<ImageView>,
    configured: Option<ImageView>,
) -> ImageView {
    let lower = match toolchain {
        Some(pinned) => pinned,
        None => match configured {
            Some(image) => image,
            None => ImageView::fallback(),
        },
    };
    ImageView {
        variants: if flagged.spec_is_empty() {
            lower.variants
        } else {
            flagged
        },
        source: match overriding {
            Some(source) => source,
            None => lower.source,
        },
    }
}

/// Picks the image that counts from what the command line, the toolchain
/// file and the configuration each ask for.
pub fn select(
    overriding: Option<&ImageSourceBuf>,
    flagged: TagVariants,
    toolchain: Option<&ImageBuf>,
    configured: Option<&ImageBuf>,
) -> (image: ImageBuf)
    ensures
        image@ == spec_select(
            match overriding {
                Some(source) => Some(source@),
                None => None,
            },
            flagged,
            match toolchain {
                Some(pinned) => Some(pinned@),
                None => None,
            },
            match configured {
                Some(image) => Some(image@),
                None => None,
            },
        ),
{
    let lower = match toolchain {
        Some(pinned) => pinned.clone(),
        None => match configured {
            Some(image) => image.clone(),
            None => ImageBuf::fallback(),
        },
    };
    let variants = if flagged.is_empty() {
        lower.variants
    } else {
        flagged
    };
    let source = match overriding {
        Some(source) => source.clone(),
        None => lower.source,
    };
    ImageBuf { variants, source }
}

/// What resolving the configuration comes to.
///
/// It fails exactly where a file that is consulted is malformed: the
/// toolchain file, or a configuration file. Else it names an image, the one
/// that counts among the override, what the toolchain file pins and the
/// configuration, and carries the configuration's flags.
pub open spec fn spec_resolve(
    overriding: Option<SourceView>,
    flagged: TagVariants,
    toolchain: Layer<Seq<char>>,
    project: Layer<RawConfigView>,
    user: Layer<RawConfigView>,
) -> Result<ConfigView, Error> {
    match (toolchain, ConfigView::chosen(project, user)) {
        (Layer::Malformed, _) => Err(Error::Configure),
        (_, Err(error)) => Err(error),
        (_, Ok(config)) => Ok(
            ConfigView {
                image: Some(
                    spec_select(
                        overriding,
                        flagged,
                        match toolchain {
                            Layer::Present(info) => pinned_image(info),
                            _ => None,
                        },
                        config.image,
                    ),
                ),
                docker_flags: config.docker_flags,
            },
        ),
    }
}

/// Resolves the configuration for one command.
///
/// `overriding` is the override on the command line and `flagged` are the
/// variants that its flags ask for. `toolchain` is the text of the nearest
/// toolchain file, `project` the nearest project configuration file and
/// `user` the user's configuration file, each as it was found.
pub fn resolve(
    overriding: Option<&ImageSourceBuf>,
    flagged: TagVariants,
    toolchain: Layer<&str>,
    project: Layer<RawConfig>,
    user: Layer<RawConfig>,
) -> (resolved: Result<Config, Error>)
    ensures
        ({
            let expected = spec_resolve(
                match overriding {
                    Some(source) => Some(source@),
                    None => None,
                },
                flagged,
                toolchain.deep_view(),
                project.deep_view(),
                user.deep_view(),
            );
            match resolved {
                Ok(config) => expected == Ok::<ConfigView, Error>(config.deep_view()),
                Err(error) => expected == Err::<ConfigView, Error>(error),
            }
        }),
{
    let pinned = match toolchain {
        Layer::Malformed => {
            return Err(Error::Configure);
        },
        Layer::Present(info) => toolchain_override(info),
        Layer::Absent => None,
    };
    let config = match Config::read(project, user) {
        Ok(config) => config,
        Err(error) => {
            return Err(error);
        },
    };
    let image = select(overriding, flagged, pinned.as_ref(), config.image.as_ref());
    Ok(Config { image: Some(image), docker_flags: config.docker_flags })
}

/// The image that a pull fetches: the upstream tag that the command names,
/// with the variants that the flags ask for and no others; without such a
/// tag the image that was resolved.
pub open spec fn spec_pull_target(
    resolved: ImageView,
    tag: Option<Seq<char>>,
    flagged: TagVariants,
) -> ImageView {
    match tag {
        Some(tag) => ImageView { variants: flagged, source: SourceView::Tensorflow(tag) },
        None => resolved,
    }
}

/// Picks the image that a pull fetches.
pub fn pull_target(resolved: &ImageBuf, tag: Option<&str>, flagged: TagVariants) -> (image:
    ImageBuf)
    ensures
        image@ == spec_pull_target(
            resolved@,
            match tag {
                Some(tag) => Some(tag@),
                None => None,
            },
            flagged,
        ),
{
    match tag {
        Some(tag) => ImageBuf {
            variants: flagged,
            source: ImageSourceBuf::Tensorflow(tag.to_owned()),
        },
        None => resolved.clone(),
    }
}

/// The configuration that makes an image the user's default.
///
/// The image is read from `word`, `=NAME` for a local image and a tag of the
/// upstream repository otherwise, with the variants that `names` list. The
/// flags are those that the user's configuration file `stored` until now:
/// they are kept as they are. A malformed file is an error.
pub open spec fn spec_default_config(
    word: Seq<char>,
    names: Seq<Seq<char>>,
    stored: Layer<RawConfigView>,
) -> Result<ConfigView, Error> {
    let image = Some(
        ImageView { variants: TagVariants::spec_parse(names), source: SourceView::of_word(word) },
    );
    match stored {
        Layer::Malformed => Err(Error::Configure),
        Layer::Present(raw) => Ok(ConfigView { image, docker_flags: raw.docker_flags }),
        Layer::Absent => Ok(ConfigView { image, docker_flags: None }),
    }
}

/// Makes the configuration that is written to the user's configuration file
/// when an image becomes the default.
pub fn default_config(word: &str, names: &Vec<String>, stored: Layer<RawConfig>) -> (config:
    Result<Config, Error>)
    ensures
        ({
            let expected = spec_default_config(word@, names.deep_view(), stored.deep_view());
            match config {
                Ok(made) => expected == Ok::<ConfigView, Error>(made.deep_view()),
                Err(error) => expected == Err::<ConfigView, Error>(error),
            }
        }),
{
    let docker_flags = match stored {
        Layer::Malformed => {
            return Err(Error::Configure);
        },
        Layer::Present(raw) => raw.docker_flags,
        Layer::Absent => None,
    };
    let image = ImageBuf { variants: TagVariants::parse(names), source: ImageSourceBuf::parse(word) };
    Ok(Config { image: Some(image), docker_flags })
}

/// Without an override, what a toolchain file pins goes before what the
/// configuration files name: the resolved image comes from where the
/// toolchain file says, and unless flags ask for variants it has the
/// toolchain file's variants.
pub proof fn lemma_toolchain_before_config(
    flagged: TagVariants,
    info: Seq<char>,
    project: Layer<RawConfigView>,
    user: Layer<RawConfigView>,
)
    requires
        pinned_image(info) is Some,
        ConfigView::chosen(project, user) is Ok,
    ensures
        spec_resolve(None, flagged, Layer::Present(info), project, user) matches Ok(config)
            && config.image matches Some(image) && image.source == pinned_image(info)->0.source
            && (flagged.spec_is_empty() ==> image.variants == pinned_image(info)->0.variants),
{
}

/// An override on the command line decides where the image comes from,
/// whatever the toolchain file and the configuration files hold: `+TAG`
/// resolves to the upstream tag `TAG`, `=NAME` to the local image `NAME`.
pub proof fn lemma_override_decides(
    token: Seq<char>,
    flagged: TagVariants,
    toolchain: Layer<Seq<char>>,
    project: Layer<RawConfigView>,
    user: Layer<RawConfigView>,
)
    requires
        spec_override(token) is Some,
        !(toolchain is Malformed),
        ConfigView::chosen(project, user) is Ok,
    ensures
        spec_resolve(spec_override(token), flagged, toolchain, project, user) matches Ok(config)
            && config.image matches Some(image) && image.source == spec_override(token)->0,
        token[0] == '+' ==> spec_override(token) == Some(SourceView::Tensorflow(token.skip(1))),
        token[0] == '=' ==> spec_override(token) == Some(SourceView::Container(token.skip(1))),
{
}

/// Variants that flags ask for replace those of every file: they are never
/// added to them.
pub proof fn lemma_flags_replace_variants(
    overriding: Option<SourceView>,
    flagged: TagVariants,
    toolchain: Option<ImageView>,
    configured: Option<ImageView>,
)
    requires
        !flagged.spec_is_empty(),
    ensures
        spec_select(overriding, flagged, toolchain, configured).variants == flagged,
{
}

/// A configuration that is written to the user's configuration file reads
/// back as it was. Resolved again without an override, without flags and
/// without files in the project, it names the image that it named, or the
/// built-in default where it named none.
pub proof fn lemma_written_config_reads_back(config: ConfigView)
    ensures
        ConfigView::of_raw(RawConfigView::of_config(config)) == config,
        ConfigView::chosen(Layer::Absent, Layer::Present(RawConfigView::of_config(config))) == Ok::<
            ConfigView,
            Error,
        >(config),
        spec_resolve(
            None,
            TagVariants { gpu: false, python3: false, jupyter: false },
            Layer::Absent,
            Layer::Absent,
            Layer::Present(RawConfigView::of_config(config)),
        ) == Ok::<ConfigView, Error>(
            ConfigView {
                image: Some(
                    match config.image {
                        Some(image) => image,
                        None => ImageView::fallback(),
                    },
                ),
                docker_flags: config.docker_flags,
            },
        ),
{
    match config.image {
        Some(image) => {
            image.variants.lemma_parse_of_tokens();
        },
        None => {},
    }
}

} // verus!
