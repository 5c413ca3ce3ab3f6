use purpl::video::{build_title, initial_client_size};

#[test]
fn title_has_name_version_and_organization() {
    let title = build_title("Purpl", 1, 2, 3, "Randomcode");
    assert_eq!(title, "Purpl v1.2.3 by Randomcode");
}

#[test]
fn title_renders_zero_version_components() {
    let title = build_title("X", 0, 0, 0, "Y");
    assert_eq!(title, "X v0.0.0 by Y");
}

#[test]
fn title_renders_large_version_components() {
    let title = build_title("Game", 4294967295, 10, 200, "Org");
    assert_eq!(title, "Game v4294967295.10.200 by Org");
}

#[test]
fn initial_size_is_two_thirds_of_the_display() {
    assert_eq!(initial_client_size(1920, 1080), (1280, 720));
}

#[test]
fn initial_size_truncates() {
    assert_eq!(initial_client_size(1000, 500), (666, 333));
}

#[test]
fn initial_size_of_a_degenerate_display() {
    assert_eq!(initial_client_size(0, 0), (0, 0));
    assert_eq!(initial_client_size(1, 1), (0, 0));
    assert_eq!(initial_client_size(4294967295, 4294967295), (2863311530, 2863311530));
}
