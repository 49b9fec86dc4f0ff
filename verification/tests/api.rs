use snoo::Resource;
use snoo::Scope;

#[test]
fn access_token_resource_displays_as_the_correct_url() {
    let actual = Resource::AccessToken.url();
    let expected = "https://www.reddit.com/api/v1/access_token".to_owned();
    assert_eq!(actual, expected);
}

#[test]
fn access_token_resource_does_not_require_a_scope() {
    let actual = Resource::AccessToken.scope();
    let expected = None;
    assert_eq!(actual, expected);
}

#[test]
fn about_me_resource_displays_as_the_correct_url() {
    let actual = Resource::Me.url();
    let expected = "https://oauth.reddit.com/api/v1/me".to_owned();
    assert_eq!(actual, expected);
}

#[test]
fn about_me_resource_requires_a_scope() {
    let actual = Resource::Me.scope();
    let expected = Some(Scope::Identity);
    assert_eq!(actual, expected);
}

#[test]
fn subreddit_about_resource_displays_as_the_correct_url() {
    let resource = Resource::SubredditAbout("all".to_owned());
    let actual = resource.url();
    let expected = "https://oauth.reddit.com/r/all/about".to_owned();
    assert_eq!(actual, expected);
}

#[test]
fn subreddit_about_resource_requires_a_scope() {
    let resource = Resource::SubredditAbout("all".to_owned());
    let actual = resource.scope();
    let expected = Some(Scope::Read);
    assert_eq!(actual, expected);
}

#[test]
fn authorize_resources_display_as_the_correct_urls() {
    assert_eq!(
        Resource::Authorize.url(),
        "https://www.reddit.com/api/v1/authorize".to_owned()
    );
    assert_eq!(
        Resource::AuthorizeCompact.url(),
        "https://www.reddit.com/api/v1/authorize.compact".to_owned()
    );
}
