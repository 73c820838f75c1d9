use kiwi_admin::routes::AppRoute;
use kiwi_admin::routes::RouteChange;
use kiwi_admin::routes::parse_route;
use kiwi_admin::routes::route_change_action;

#[test]
fn paths_are_exact() {
    assert_eq!(AppRoute::Login.to_path(), "/login");
    assert_eq!(AppRoute::ForgotPassword.to_path(), "/forgot_password");
    assert_eq!(AppRoute::ResetPassword.to_path(), "/password_reset");
    assert_eq!(AppRoute::GalleryCreate.to_path(), "/gallery/create");
    assert_eq!(AppRoute::GalleryEdit(12).to_path(), "/gallery/12");
    assert_eq!(AppRoute::Gallery.to_path(), "/gallery");
    assert_eq!(AppRoute::UsersCreate.to_path(), "/users/create");
    assert_eq!(AppRoute::UserEdit(7).to_path(), "/users/7");
    assert_eq!(AppRoute::Users.to_path(), "/users");
    assert_eq!(AppRoute::Dashboard.to_path(), "/");
    assert_eq!(AppRoute::NotFound(Some("nowhere".to_string())).to_path(), "/nowhere");
}

#[test]
fn parse_inverts_to_path() {
    let routes = vec![
        AppRoute::Login,
        AppRoute::ForgotPassword,
        AppRoute::ResetPassword,
        AppRoute::GalleryCreate,
        AppRoute::GalleryEdit(12),
        AppRoute::Gallery,
        AppRoute::UsersCreate,
        AppRoute::UserEdit(7),
        AppRoute::Users,
        AppRoute::Dashboard,
    ];
    for r in routes {
        assert_eq!(parse_route(&r.to_path()), Some(r.clone()), "route {:?}", r);
    }
}

#[test]
fn unknown_paths_fall_through() {
    assert_eq!(
        parse_route("/nowhere"),
        Some(AppRoute::NotFound(Some("nowhere".to_string())))
    );
    assert_eq!(
        parse_route("/gallery/xyz"),
        Some(AppRoute::NotFound(Some("gallery/xyz".to_string())))
    );
    assert_eq!(
        parse_route("/users/"),
        Some(AppRoute::NotFound(Some("users/".to_string())))
    );
    assert_eq!(parse_route("no-slash"), None);
    assert_eq!(parse_route(""), None);
}

#[test]
fn numeric_segments_accept_from_str_forms() {
    assert_eq!(parse_route("/users/007"), Some(AppRoute::UserEdit(7)));
    assert_eq!(parse_route("/users/+7"), Some(AppRoute::UserEdit(7)));
    assert_eq!(
        parse_route("/users/99999999999"),
        Some(AppRoute::NotFound(Some("users/99999999999".to_string())))
    );
}

#[test]
fn auth_flags_per_route() {
    assert!(!AppRoute::Login.requires_auth());
    assert!(!AppRoute::ForgotPassword.requires_auth());
    assert!(!AppRoute::ResetPassword.requires_auth());
    assert!(!AppRoute::NotFound(None).requires_auth());
    assert!(AppRoute::Dashboard.requires_auth());
    assert!(AppRoute::Users.requires_auth());
    assert!(AppRoute::GalleryEdit(1).requires_auth());

    assert!(AppRoute::Login.redirect_if_logged_in());
    assert!(AppRoute::ForgotPassword.redirect_if_logged_in());
    assert!(AppRoute::ResetPassword.redirect_if_logged_in());
    assert!(!AppRoute::Dashboard.redirect_if_logged_in());
    assert!(!AppRoute::NotFound(None).redirect_if_logged_in());
}

#[test]
fn route_changes_redirect_by_auth() {
    assert_eq!(
        route_change_action("/users", false),
        RouteChange::ReplaceWithLogin("/users".to_string())
    );
    assert_eq!(route_change_action("/users", true), RouteChange::Stay);
    assert_eq!(route_change_action("/login", true), RouteChange::ReplaceWithDashboard);
    assert_eq!(route_change_action("/login", false), RouteChange::Stay);
    assert_eq!(route_change_action("/nowhere", false), RouteChange::Stay);
    assert_eq!(route_change_action("no-slash", false), RouteChange::Stay);
}
