use random_values::random::{
    init_email_server, init_name_prefix, init_name_suffix, init_phone_prefix, EMAIL_SERVER,
    EMAIL_SERVER_COUNT, NAME_PREFIX, NAME_PREFIX_COUNT, NAME_SUFFIX, NAME_SUFFIX_COUNT,
    PHONE_PREFIX, PHONE_PREFIX_COUNT,
};

#[test]
fn tables_have_their_stated_sizes() {
    assert_eq!(init_name_prefix().len(), 128);
    assert_eq!(init_name_suffix().len(), 1002);
    assert_eq!(init_phone_prefix().len(), 57);
    assert_eq!(init_email_server().len(), 12);
    assert_eq!(NAME_PREFIX_COUNT, NAME_PREFIX.len());
    assert_eq!(NAME_SUFFIX_COUNT, NAME_SUFFIX.len());
    assert_eq!(PHONE_PREFIX_COUNT, PHONE_PREFIX.len());
    assert_eq!(EMAIL_SERVER_COUNT, EMAIL_SERVER.len());
}

#[test]
fn name_tables_hold_single_characters_in_order() {
    let prefixes = init_name_prefix();
    let suffixes = init_name_suffix();
    assert_eq!(prefixes[0], "赵");
    assert_eq!(prefixes[1], "钱");
    assert_eq!(prefixes[127], "梁");
    assert_eq!(suffixes[0], "的");
    assert_eq!(suffixes[19], "为");
    assert_eq!(suffixes[20], "子");
    assert_eq!(suffixes[1000], "乾");
    assert_eq!(suffixes[1001], "坤");
    for (i, entry) in prefixes.iter().enumerate() {
        assert_eq!(entry.chars().count(), 1);
        assert_eq!(entry.chars().next(), Some(NAME_PREFIX[i]));
    }
    for (i, entry) in suffixes.iter().enumerate() {
        assert_eq!(entry.chars().count(), 1);
        assert_eq!(entry.chars().next(), Some(NAME_SUFFIX[i]));
    }
}

#[test]
fn phone_prefixes_are_three_digits_each() {
    let prefixes = init_phone_prefix();
    for (i, prefix) in prefixes.iter().enumerate() {
        assert_eq!(prefix.len(), 3);
        assert!(prefix.chars().all(|c| c.is_ascii_digit()));
        assert_eq!(*prefix, PHONE_PREFIX[i].to_string());
    }
}

#[test]
fn phone_prefixes_are_the_listed_ranges() {
    let mut expected: Vec<String> = Vec::new();
    for code in 130..=139 {
        expected.push(code.to_string());
    }
    for code in 144..=159 {
        expected.push(code.to_string());
    }
    for code in 165..=167 {
        expected.push(code.to_string());
    }
    for code in 170..=191 {
        expected.push(code.to_string());
    }
    expected.push("193".to_string());
    for code in 195..=199 {
        expected.push(code.to_string());
    }
    assert_eq!(init_phone_prefix(), expected);
}

#[test]
fn email_servers_are_the_twelve_domains() {
    let expected = vec![
        "qq.com",
        "163.com",
        "126.com",
        "gmail.com",
        "outlook.com",
        "yahoo.com",
        "sina.com",
        "sohu.com",
        "aliyun.com",
        "hotmail.com",
        "icloud.com",
        "live.com",
    ];
    assert_eq!(init_email_server(), expected);
}
