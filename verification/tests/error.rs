use tensorman::error::Error;

#[test]
fn every_error_has_its_message() {
    assert_eq!(Error::Configure.message(), "configuration error");
    assert_eq!(Error::Docker.message(), "an error with docker was encountered");
    assert_eq!(Error::ImageNotFound.message(), "image not found");
    assert_eq!(Error::ContainerNotFound.message(), "the container to be saved does not exist");
    assert_eq!(Error::ContainerExists.message(), "an active container with this name already exists");
    assert_eq!(Error::ImageAlreadyExists.message(), "image already exists with this name");
    assert_eq!(Error::ArgumentUsage.message(), "the image override doesn't start with + or =");
}

#[test]
fn only_a_usage_error_wants_the_usage() {
    assert!(Error::ArgumentUsage.wants_usage());
    for error in [
        Error::Configure,
        Error::Docker,
        Error::ImageNotFound,
        Error::ContainerNotFound,
        Error::ContainerExists,
        Error::ImageAlreadyExists,
    ] {
        assert!(!error.wants_usage());
    }
}
