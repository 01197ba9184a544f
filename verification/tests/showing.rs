use aware::show::{find_tag, label, Region, Resource, Show, Tag};
use aware::text::{as_opt_str, contains_text, pad_right, str_or_empty};

fn tag(key: &str, value: &str) -> Tag {
    Tag { key: Some(key.to_string()), value: Some(value.to_string()) }
}

fn resource(id: Option<&str>, description: Option<&str>, tags: Vec<Tag>) -> Resource {
    Resource {
        id: id.map(String::from),
        description: description.map(String::from),
        tags,
        vpc_ids: vec![],
        gateway_id: None,
    }
}

#[test]
fn label_is_the_identifier_alone_without_name_or_description() {
    assert_eq!(label("vpc-1".to_string(), None, None), "vpc-1");
}

#[test]
fn label_prefers_the_name_to_the_description() {
    assert_eq!(label("sg-1".to_string(), Some("web"), Some("web servers")), "sg-1 (web)");
    assert_eq!(label("sg-1".to_string(), None, Some("web servers")), "sg-1 (web servers)");
    assert_eq!(label("sg-1".to_string(), Some(""), Some("web servers")), "sg-1 ()");
}

#[test]
fn find_tag_takes_the_first_tag_with_the_key() {
    let tags = vec![tag("Env", "prod"), tag("Name", "first"), tag("Name", "second")];
    assert_eq!(find_tag(&tags, "Name"), Some("first"));
    assert_eq!(find_tag(&tags, "Env"), Some("prod"));
    assert_eq!(find_tag(&tags, "name"), None);
    assert_eq!(find_tag(&vec![], "Name"), None);
}

#[test]
fn find_tag_stops_at_a_tag_without_value() {
    let tags = vec![
        Tag { key: None, value: Some("orphan".to_string()) },
        Tag { key: Some("Name".to_string()), value: None },
        tag("Name", "later"),
    ];
    assert_eq!(find_tag(&tags, "Name"), None);
}

#[test]
fn resource_is_shown_by_identifier_and_name() {
    let subnet = resource(Some("subnet-1"), None, vec![tag("Name", "private a")]);
    assert_eq!(subnet.id(), "subnet-1");
    assert_eq!(subnet.name(), Some("private a"));
    assert_eq!(subnet.description(), None);
    assert_eq!(subnet.tag("Name"), Some("private a"));
    assert_eq!(subnet.tag("Other"), None);
    assert_eq!(subnet.id_and_name(), "subnet-1 (private a)");
}

#[test]
fn resource_without_name_is_shown_by_its_description() {
    let group = resource(Some("sg-9"), Some("default VPC security group"), vec![]);
    assert_eq!(group.name(), None);
    assert_eq!(group.description(), Some("default VPC security group"));
    assert_eq!(group.id_and_name(), "sg-9 (default VPC security group)");
    let named = resource(Some("sg-9"), Some("described"), vec![tag("Name", "named")]);
    assert_eq!(named.id_and_name(), "sg-9 (named)");
}

#[test]
fn resource_without_identifier_has_an_empty_one() {
    let bare = resource(None, None, vec![]);
    assert_eq!(bare.id(), "");
    assert_eq!(bare.id_and_name(), "");
    let named = resource(None, None, vec![tag("Name", "n")]);
    assert_eq!(named.id_and_name(), " (n)");
}

#[test]
fn region_is_shown_by_its_name_alone() {
    let region = Region { name: Some("eu-central-1".to_string()) };
    assert_eq!(region.id(), "eu-central-1");
    assert_eq!(region.id_and_name(), "eu-central-1");
    assert_eq!(region.tag("Name"), None);
    assert_eq!(region.name(), None);
    assert_eq!(region.description(), None);
    let unknown = Region { name: None };
    assert_eq!(unknown.id(), "");
    assert_eq!(unknown.id_and_name(), "");
}

#[test]
fn pad_right_fills_up_to_the_width() {
    assert_eq!(pad_right("abc", 5), "abc  ");
    assert_eq!(pad_right("", 3), "   ");
    assert_eq!(pad_right("abc", 3), "abc");
    assert_eq!(pad_right("abcdef", 3), "abcdef");
    assert_eq!(pad_right("abc", 0), "abc");
}

#[test]
fn pad_right_counts_characters() {
    assert_eq!(pad_right("né", 4), "né  ");
    assert_eq!(pad_right("日本", 3), "日本 ");
}

#[test]
fn pad_right_agrees_with_format_width() {
    for text in ["", "a", "AWS::EC2::Instance", "é", "x".repeat(40).as_str(), "y".repeat(41).as_str()] {
        assert_eq!(pad_right(text, 40), format!("{text:40}"));
    }
}

#[test]
fn optional_strings_are_borrowed_or_defaulted() {
    let some = Some("x".to_string());
    let none: Option<String> = None;
    assert_eq!(as_opt_str(&some), Some("x"));
    assert_eq!(as_opt_str(&none), None);
    assert_eq!(str_or_empty(&some), "x");
    assert_eq!(str_or_empty(&none), "");
}

#[test]
fn contains_text_compares_whole_strings() {
    let items = vec!["alpha".to_string(), "beta".to_string()];
    assert!(contains_text(&items, "beta"));
    assert!(!contains_text(&items, "bet"));
    assert!(!contains_text(&items, "Beta"));
    assert!(!contains_text(&vec![], "beta"));
}
