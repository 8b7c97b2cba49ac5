use tips_bot::commands::{CommandOption, OptionValue};
use tips_bot::text::Tone;
use tips_bot::tips::{
    confirmation_mismatch_reply, deletion_reply, deletion_target,
    get_required_integer_param_from_options, list_failure_reply, list_filter, list_reply,
    tag_like_patterns, tip_list, tip_list_query, tip_update_from_options, unknown_tip_reply,
    ListTip,
};

fn text(name: &str, value: &str) -> CommandOption {
    CommandOption { name: name.to_string(), value: Some(OptionValue::Text(value.to_string())) }
}

fn integer(name: &str, v: i64) -> CommandOption {
    CommandOption { name: name.to_string(), value: Some(OptionValue::Integer(v)) }
}

#[test]
fn tip_list_has_one_line_per_tip() {
    let tips = vec![
        ListTip { id: 1, title: "A".to_string(), tags: "x".to_string() },
        ListTip { id: 2, title: "B".to_string(), tags: String::new() },
    ];
    assert_eq!(tip_list(&tips), "*1* - **A**    #x#\n*2* - **B**\n");
    assert_eq!(tip_list(&[]), "");
}

#[test]
fn tag_patterns_split_on_commas() {
    assert_eq!(tag_like_patterns("rust,go"), vec!["%rust%".to_string(), "%go%".to_string()]);
    assert_eq!(tag_like_patterns("rust"), vec!["%rust%".to_string()]);
    assert_eq!(tag_like_patterns("a,,b"), vec!["%a%".to_string(), "%%".to_string(), "%b%".to_string()]);
}

#[test]
fn list_filter_trims_the_tags() {
    assert!(list_filter("").is_none());
    let f = list_filter("  rust,go \n").unwrap();
    assert_eq!(f.tags, "rust,go");
    assert_eq!(f.patterns, vec!["%rust%".to_string(), "%go%".to_string()]);
}

#[test]
fn list_replies() {
    let tips = vec![ListTip { id: 5, title: "T".to_string(), tags: "x".to_string() }];
    let f = list_filter("x");
    let e = list_reply(&f, &tips);
    assert_eq!(e.title, "List of created  `TIPS`  with tags  `x`");
    assert_eq!(e.description, "*5* - **T**    #x#\n");
    assert_eq!(e.tone, Tone::Listing);
    let e = list_reply(&None, &tips);
    assert_eq!(e.title, "Here is the list of created  `TIPS`");
    let e = list_failure_reply("gone".to_string());
    assert_eq!(e.title, "Failed to get the list of tips title.");
    assert_eq!(e.description, "Error:\ngone");
}

#[test]
fn integer_options() {
    let opts = vec![integer("id", 4), integer("confirm_id", -1), text("x", "y")];
    assert_eq!(get_required_integer_param_from_options(&opts, 0, "Id"), Ok(4));
    assert_eq!(
        get_required_integer_param_from_options(&opts, 1, "confirm_id"),
        Err("Incorrect type for the parameter confirm_id. It must be an integer >= 0".to_string())
    );
    assert_eq!(
        get_required_integer_param_from_options(&opts, 2, "x"),
        Err("Incorrect type for the parameter x.".to_string())
    );
    assert_eq!(
        get_required_integer_param_from_options(&opts, 3, "Id"),
        Err("Missing parameter Id.".to_string())
    );
}

#[test]
fn deletion_needs_a_matching_confirmation() {
    assert_eq!(deletion_target(4, 4), Some(4));
    assert_eq!(deletion_target(4, 5), None);
    assert_eq!(confirmation_mismatch_reply().title, "Tip id and confirmation are different !");
    assert_eq!(confirmation_mismatch_reply().tone, Tone::Warning);
}

#[test]
fn deletion_replies_by_rows_removed() {
    let e = deletion_reply(1);
    assert_eq!(e.title, "Tip deleted successfully :)");
    assert_eq!(e.tone, Tone::Success);
    let e = deletion_reply(0);
    assert_eq!(e.title, "Tip id unknown");
    assert_eq!(e.tone, Tone::Unknown);
    assert_eq!(unknown_tip_reply().tone, Tone::Error);
}

#[test]
fn update_options_give_the_changed_fields() {
    let opts = vec![integer("id", 3), text("title", "New"), text("tags", ""), text("content", "Body")];
    let u = tip_update_from_options(&opts).unwrap();
    assert_eq!(u.title, Some("New".to_string()));
    assert_eq!(u.content, Some("Body".to_string()));
    assert_eq!(u.tags, None);
}

#[test]
fn update_options_report_errors() {
    let opts = vec![integer("title", 3)];
    assert_eq!(
        tip_update_from_options(&opts).err(),
        Some("The parameter title given has a bad format.\nExpected a string.".to_string())
    );
    let opts = vec![CommandOption { name: "tags".to_string(), value: None }];
    assert_eq!(
        tip_update_from_options(&opts).err(),
        Some("The parameter tags is empty.\nExpected lowercase csv with no spaces around coma. like this : tag,tag2,tag3,...".to_string())
    );
}

#[test]
fn list_query_binds_one_parameter_per_pattern() {
    assert_eq!(tip_list_query(0), "SELECT id, title, IFNULL(tags, '') FROM tips");
    assert_eq!(
        tip_list_query(2),
        "SELECT id, title, IFNULL(tags, '') FROM tips WHERE tags LIKE ?1 OR tags LIKE ?2"
    );
    assert!(tip_list_query(11).ends_with(" OR tags LIKE ?10 OR tags LIKE ?11"));
}
