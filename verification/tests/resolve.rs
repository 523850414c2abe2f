use tensorman::config::{Config, Layer, RawConfig};
use tensorman::error::Error;
use tensorman::image::{ImageBuf, ImageSourceBuf, TagVariants};
use tensorman::resolve::{default_config, parse_override, pull_target, resolve, select};

fn texts(words: &[&str]) -> Vec<String> {
    words.iter().map(|word| word.to_string()).collect()
}

fn variants(gpu: bool, python3: bool, jupyter: bool) -> TagVariants {
    TagVariants { gpu, python3, jupyter }
}

fn upstream(tag: &str, set: TagVariants) -> ImageBuf {
    ImageBuf { variants: set, source: ImageSourceBuf::Tensorflow(tag.to_string()) }
}

fn local(name: &str, set: TagVariants) -> ImageBuf {
    ImageBuf { variants: set, source: ImageSourceBuf::Container(name.to_string()) }
}

fn tagged(tag: &str, names: Option<&[&str]>, flags: Option<&[&str]>) -> RawConfig {
    RawConfig { image: None, tag: Some(tag.to_string()), variants: names.map(texts), docker_flags: flags.map(texts) }
}

#[test]
fn override_with_plus_names_a_tag() {
    assert_eq!(parse_override("+2.4.0"), Ok(ImageSourceBuf::Tensorflow("2.4.0".to_string())));
    assert_eq!(parse_override("+"), Ok(ImageSourceBuf::Tensorflow(String::new())));
    assert_eq!(parse_override("+=x"), Ok(ImageSourceBuf::Tensorflow("=x".to_string())));
}

#[test]
fn override_with_equals_names_a_local_image() {
    assert_eq!(parse_override("=mine"), Ok(ImageSourceBuf::Container("mine".to_string())));
    assert_eq!(parse_override("=+x"), Ok(ImageSourceBuf::Container("+x".to_string())));
}

#[test]
fn override_without_sign_is_a_usage_error() {
    assert_eq!(parse_override("2.4.0"), Err(Error::ArgumentUsage));
    assert_eq!(parse_override(""), Err(Error::ArgumentUsage));
    assert_eq!(parse_override(" +x"), Err(Error::ArgumentUsage));
    assert_eq!(parse_override("é+"), Err(Error::ArgumentUsage));
}

#[test]
fn default_is_the_latest_upstream_tag() {
    assert_eq!(select(None, TagVariants::empty(), None, None), upstream("latest", TagVariants::empty()));
    assert_eq!(
        resolve(None, TagVariants::empty(), Layer::Absent, Layer::Absent, Layer::Absent),
        Ok(Config { image: Some(upstream("latest", TagVariants::empty())), docker_flags: None })
    );
}

#[test]
fn toolchain_wins_over_project_config() {
    let project = tagged("1.15.0", Some(&["jupyter"]), Some(&["-p"]));
    let user = tagged("1.14.0", None, Some(&["-u"]));
    assert_eq!(
        resolve(None, TagVariants::empty(), Layer::Present("2.4.0 gpu\n"), Layer::Present(project), Layer::Present(user)),
        Ok(Config { image: Some(upstream("2.4.0", variants(true, false, false))), docker_flags: Some(texts(&["-p"])) })
    );
}

#[test]
fn empty_toolchain_file_falls_through_to_the_configuration() {
    let project = tagged("1.15.0", Some(&["jupyter"]), None);
    assert_eq!(
        resolve(None, TagVariants::empty(), Layer::Present("  \n"), Layer::Present(project), Layer::Absent),
        Ok(Config { image: Some(upstream("1.15.0", variants(false, false, true))), docker_flags: None })
    );
}

#[test]
fn project_config_wins_over_user_config() {
    let project = tagged("1.15.0", None, None);
    let user = tagged("1.14.0", Some(&["gpu"]), None);
    assert_eq!(
        resolve(None, TagVariants::empty(), Layer::Absent, Layer::Present(project), Layer::Present(user)),
        Ok(Config { image: Some(upstream("1.15.0", TagVariants::empty())), docker_flags: None })
    );
}

#[test]
fn cli_tag_wins_over_every_file() {
    let foo = parse_override("+foo").unwrap();
    let project = tagged("1.15.0", Some(&["jupyter"]), None);
    let user = RawConfig { image: Some("mine".to_string()), tag: None, variants: None, docker_flags: None };
    let resolved = resolve(Some(&foo), TagVariants::empty(), Layer::Present("=pinned gpu"), Layer::Present(project), Layer::Present(user));
    assert_eq!(
        resolved,
        Ok(Config { image: Some(upstream("foo", variants(true, false, false))), docker_flags: None })
    );
    assert_eq!(
        resolve(Some(&foo), TagVariants::empty(), Layer::Absent, Layer::Absent, Layer::Absent),
        Ok(Config { image: Some(upstream("foo", TagVariants::empty())), docker_flags: None })
    );
}

#[test]
fn cli_container_wins_over_every_file() {
    let mine = parse_override("=mine").unwrap();
    let project = tagged("1.15.0", Some(&["jupyter"]), None);
    assert_eq!(
        resolve(Some(&mine), TagVariants::empty(), Layer::Present("2.4.0"), Layer::Present(project), Layer::Absent),
        Ok(Config { image: Some(local("mine", TagVariants::empty())), docker_flags: None })
    );
}

#[test]
fn override_keeps_the_variants_of_the_layers_below() {
    let foo = ImageSourceBuf::Tensorflow("foo".to_string());
    let configured = upstream("1.15.0", variants(false, true, false));
    assert_eq!(
        select(Some(&foo), TagVariants::empty(), None, Some(&configured)),
        upstream("foo", variants(false, true, false))
    );
    let pinned = local("pinned", variants(true, false, false));
    assert_eq!(
        select(Some(&foo), TagVariants::empty(), Some(&pinned), Some(&configured)),
        upstream("foo", variants(true, false, false))
    );
}

#[test]
fn flags_replace_the_variants_and_never_add_to_them() {
    let configured = upstream("1.15.0", variants(false, true, true));
    assert_eq!(
        select(None, variants(true, false, false), None, Some(&configured)),
        upstream("1.15.0", variants(true, false, false))
    );
    let pinned = local("pinned", variants(false, false, true));
    assert_eq!(
        select(None, variants(false, true, false), Some(&pinned), Some(&configured)),
        local("pinned", variants(false, true, false))
    );
    assert_eq!(
        select(None, variants(true, true, true), None, None),
        upstream("latest", variants(true, true, true))
    );
}

#[test]
fn malformed_configuration_aborts_resolution() {
    let foo = parse_override("+foo").unwrap();
    assert_eq!(resolve(Some(&foo), TagVariants::empty(), Layer::Present("2.4.0"), Layer::Malformed, Layer::Absent), Err(Error::Configure));
    assert_eq!(resolve(None, TagVariants::empty(), Layer::Absent, Layer::Absent, Layer::Malformed), Err(Error::Configure));
}

#[test]
fn written_default_resolves_to_the_same_image() {
    let image = upstream("2.4.0", variants(true, false, true));
    let config = Config { image: Some(image.clone()), docker_flags: Some(texts(&["-x"])) };
    let resolved = resolve(None, TagVariants::empty(), Layer::Absent, Layer::Absent, Layer::Present(config.write()));
    assert_eq!(resolved, Ok(Config { image: Some(image), docker_flags: Some(texts(&["-x"])) }));
    let mine = local("mine", variants(false, true, false));
    let config = Config { image: Some(mine.clone()), docker_flags: None };
    let resolved = resolve(None, TagVariants::empty(), Layer::Absent, Layer::Absent, Layer::Present(config.write()));
    assert_eq!(resolved, Ok(Config { image: Some(mine), docker_flags: None }));
}

#[test]
fn pull_takes_the_named_tag_with_the_flagged_variants_only() {
    let resolved = local("mine", variants(false, true, false));
    assert_eq!(pull_target(&resolved, None, variants(true, false, false)), resolved);
    assert_eq!(
        pull_target(&resolved, Some("2.4.0"), variants(true, false, false)),
        upstream("2.4.0", variants(true, false, false))
    );
    assert_eq!(pull_target(&resolved, Some("2.4.0"), TagVariants::empty()), upstream("2.4.0", TagVariants::empty()));
}

#[test]
fn default_keeps_the_stored_flags() {
    let stored = tagged("1.15.0", Some(&["gpu"]), Some(&["--network=host"]));
    assert_eq!(
        default_config("2.4.0", &texts(&["jupyter", "python3"]), Layer::Present(stored)),
        Ok(Config { image: Some(upstream("2.4.0", variants(false, true, true))), docker_flags: Some(texts(&["--network=host"])) })
    );
    assert_eq!(
        default_config("=mine", &texts(&[]), Layer::Absent),
        Ok(Config { image: Some(local("mine", TagVariants::empty())), docker_flags: None })
    );
    assert_eq!(default_config("2.4.0", &texts(&["gpu"]), Layer::Malformed), Err(Error::Configure));
}

#[test]
fn malformed_toolchain_file_aborts_resolution() {
    let foo = parse_override("+foo").unwrap();
    let project = tagged("1.15.0", None, None);
    assert_eq!(
        resolve(Some(&foo), variants(true, false, false), Layer::Malformed, Layer::Present(project), Layer::Absent),
        Err(Error::Configure)
    );
    assert_eq!(resolve(None, TagVariants::empty(), Layer::Malformed, Layer::Absent, Layer::Absent), Err(Error::Configure));
}

#[test]
fn user_config_counts_where_nothing_goes_before_it() {
    let user = tagged("1.14.0", Some(&["gpu"]), Some(&["-u"]));
    assert_eq!(
        resolve(None, TagVariants::empty(), Layer::Absent, Layer::Absent, Layer::Present(user)),
        Ok(Config { image: Some(upstream("1.14.0", variants(true, false, false))), docker_flags: Some(texts(&["-u"])) })
    );
}
