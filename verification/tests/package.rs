use wrangler::commands::package::update_package_json_name;
use wrangler::commands::package::RenameError;

#[test]
fn name_is_replaced() {
    let contents = "{\"name\":\"template\",\"version\":\"1.0.0\"}";
    assert_eq!(
        update_package_json_name(contents, "my-worker"),
        Ok("{\n  \"name\": \"my-worker\",\n  \"version\": \"1.0.0\"\n}".to_string())
    );
}

#[test]
fn name_is_added_where_it_is_missing() {
    assert_eq!(
        update_package_json_name("{}", "my-worker"),
        Ok("{\n  \"name\": \"my-worker\"\n}".to_string())
    );
    assert_eq!(
        update_package_json_name("{\"private\": true}", "w"),
        Ok("{\n  \"name\": \"w\",\n  \"private\": true\n}".to_string())
    );
}

#[test]
fn null_becomes_an_object_with_the_name() {
    assert_eq!(
        update_package_json_name("null", "my-worker"),
        Ok("{\n  \"name\": \"my-worker\"\n}".to_string())
    );
}

#[test]
fn name_is_escaped() {
    assert_eq!(
        update_package_json_name("{}", "a\"b"),
        Ok("{\n  \"name\": \"a\\\"b\"\n}".to_string())
    );
}

#[test]
fn text_that_is_no_json_is_refused() {
    assert_eq!(update_package_json_name("", "w"), Err(RenameError::NotJson));
    assert_eq!(update_package_json_name("{name: w}", "w"), Err(RenameError::NotJson));
    assert_eq!(update_package_json_name("{} trailing", "w"), Err(RenameError::NotJson));
}

#[test]
fn json_without_members_is_refused() {
    assert_eq!(update_package_json_name("[1, 2]", "w"), Err(RenameError::NotAnObject));
    assert_eq!(update_package_json_name("\"text\"", "w"), Err(RenameError::NotAnObject));
    assert_eq!(update_package_json_name("12", "w"), Err(RenameError::NotAnObject));
    assert_eq!(update_package_json_name("true", "w"), Err(RenameError::NotAnObject));
}
