use wrangler::commands::init::current_dirname;
use wrangler::commands::init::init;
use wrangler::commands::init::InitError;
use wrangler::commands::init::InitPlan;

#[test]
fn init_takes_the_given_name() {
    assert_eq!(
        init(Some("worker"), false, false, "somewhere"),
        Ok(InitPlan { name: "worker".to_string(), config_dir: "./".to_string(), site: false })
    );
}

#[test]
fn init_falls_back_to_the_directory_name() {
    assert_eq!(
        init(None, true, false, "my-project"),
        Ok(InitPlan { name: "my-project".to_string(), config_dir: "./".to_string(), site: true })
    );
}

#[test]
fn init_refuses_an_existing_configuration() {
    assert_eq!(init(Some("worker"), false, true, "x"), Err(InitError::ConfigExists { site: false }));
    assert_eq!(init(Some("worker"), true, true, "x"), Err(InitError::ConfigExists { site: true }));
    assert_eq!(init(Some("Bad Name"), true, true, "x"), Err(InitError::ConfigExists { site: true }));
}

#[test]
fn init_refuses_an_invalid_name() {
    assert_eq!(
        init(Some("Bad Name"), false, false, "fine"),
        Err(InitError::InvalidName { name: "Bad Name".to_string() })
    );
    assert_eq!(
        init(None, false, false, "Bad Directory"),
        Err(InitError::InvalidName { name: "Bad Directory".to_string() })
    );
}

#[test]
fn init_messages() {
    assert_eq!(
        InitError::ConfigExists { site: false }.message(),
        "A wrangler.toml file already exists! Please remove it before running this command again."
    );
    let site = InitError::ConfigExists { site: true }.message();
    assert!(site.starts_with("A wrangler.toml file already exists!\n\nTo add Workers Sites"));
    assert!(site.contains("[site]\nbucket = \"\" # this should point to the directory with static assets\nentry-point = \"workers-site\"\n\n"));
    assert_eq!(
        InitError::InvalidName { name: "X".to_string() }.message(),
        "Worker name `X` is invalid. Ensure that you only use lowercase letters, dashes, underscores, and numbers."
    );
}

#[test]
fn current_dirname_is_the_last_component() {
    assert_eq!(current_dirname("/home/user/my-project"), "my-project");
    assert_eq!(current_dirname("/srv"), "srv");
}

#[test]
fn current_dirname_of_the_root_is_worker() {
    assert_eq!(current_dirname("/"), "worker");
    assert_eq!(current_dirname(""), "worker");
}
