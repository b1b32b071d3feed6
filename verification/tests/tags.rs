use opentracing_rs::jaeger::tag::{
    JAEGER_CLIENT_VERSION, JAEGER_CLIENT_VERSION_TAG_KEY, SAMPLER_PARAM_TAG_KEY,
    SAMPLER_TYPE_CONST, SAMPLER_TYPE_PROBABILISTIC, SAMPLER_TYPE_REMOTE, SAMPLER_TYPE_TAG_KEY,
};
use opentracing_rs::tag::{clone_tags, Tag, TagValue};

fn text_of(value: &TagValue) -> Option<&str> {
    match value {
        TagValue::String(s) => Some(s.as_str()),
        _ => None,
    }
}

#[test]
fn tag_keeps_name_and_value() {
    let tag = Tag::new("http.status", TagValue::text("200"));
    assert_eq!(tag.name(), "http.status");
    assert_eq!(text_of(tag.value()), Some("200"));
}

#[test]
fn tag_values_from_plain_values() {
    assert!(matches!(TagValue::from(true), TagValue::Bool(true)));
    assert!(matches!(TagValue::from(false), TagValue::Bool(false)));
    match TagValue::from(String::from("abc")) {
        TagValue::String(s) => assert_eq!(s, "abc"),
        _ => panic!("a string was expected"),
    }
    match TagValue::from("literal") {
        TagValue::String(s) => assert_eq!(s, "literal"),
        _ => panic!("a string was expected"),
    }
}

#[test]
fn number_is_kept_as_the_bits_of_the_double() {
    let bits = 0.25f64.to_bits();
    match TagValue::number_from_bits(bits) {
        TagValue::Number(kept) => {
            assert_eq!(kept, bits);
            assert_eq!(f64::from_bits(kept), 0.25);
        }
        _ => panic!("a number was expected"),
    }
}

#[test]
fn tag_clone_is_equal() {
    let tag = Tag::new("flag", TagValue::from(true));
    let copy = tag.clone();
    assert_eq!(copy.name(), "flag");
    assert!(matches!(copy.value(), TagValue::Bool(true)));
    let number = Tag::new("n", TagValue::number_from_bits(17)).clone();
    assert!(matches!(number.value(), TagValue::Number(17)));
}

#[test]
fn tag_split_gives_both_parts() {
    let (name, value) = Tag::new("k", TagValue::text("v")).split();
    assert_eq!(name, "k");
    assert_eq!(text_of(&value), Some("v"));
}

#[test]
fn clone_tags_keeps_order() {
    let tags = vec![
        Tag::new("a", TagValue::text("1")),
        Tag::new("b", TagValue::from(false)),
        Tag::new("c", TagValue::number_from_bits(3)),
    ];
    let copy = clone_tags(&tags);
    assert_eq!(copy.len(), 3);
    assert_eq!(copy[0].name(), "a");
    assert_eq!(copy[1].name(), "b");
    assert_eq!(copy[2].name(), "c");
    assert!(matches!(copy[1].value(), TagValue::Bool(false)));
    assert!(clone_tags(&Vec::new()).is_empty());
}

#[test]
fn client_tag_names() {
    assert_eq!(JAEGER_CLIENT_VERSION_TAG_KEY, "jaeger.version");
    assert_eq!(JAEGER_CLIENT_VERSION, "opentracing-rs-0.1.0");
    assert_eq!(SAMPLER_TYPE_TAG_KEY, "sampler.type");
    assert_eq!(SAMPLER_PARAM_TAG_KEY, "sampler.param");
    assert_eq!(SAMPLER_TYPE_CONST, "const");
    assert_eq!(SAMPLER_TYPE_REMOTE, "remote");
    assert_eq!(SAMPLER_TYPE_PROBABILISTIC, "probabilistic");
}
