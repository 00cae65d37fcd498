use sheepit::token::TokenTrimmer;
use sheepit::version::bump::{major_version, minor_version, patch_version};
use sheepit::version::list::VersionList;
use sheepit::version::update::VersionUpdate;
use sheepit::version::{
    bump_major_version, bump_minor_version, bump_patch_version, decimal_text, render, Version,
};

fn test_version() -> Version {
    Version { major: 1, minor: 2, patch: 3, pre: Default::default(), build: Default::default() }
}

fn lenient(text: &str) -> Version {
    Version::parse_lenient(text).expect("version should parse")
}

#[test]
fn version_test_bump_major_version() {
    let version = bump_major_version(test_version());
    let expected = Version {
        major: 2,
        minor: 0,
        patch: 0,
        pre: Default::default(),
        build: Default::default(),
    };
    assert_eq!(expected, version)
}

#[test]
fn version_test_bump_minor_version() {
    let version = bump_minor_version(test_version());
    let expected = Version {
        major: 1,
        minor: 3,
        patch: 0,
        pre: Default::default(),
        build: Default::default(),
    };
    assert_eq!(expected, version)
}

#[test]
fn version_test_bump_patch_version() {
    let version = bump_patch_version(test_version());
    let expected = Version {
        major: 1,
        minor: 2,
        patch: 4,
        pre: Default::default(),
        build: Default::default(),
    };
    assert_eq!(expected, version)
}

#[test]
fn bump_test_bump_major_version() {
    let version = major_version(test_version());
    let expected = Version {
        major: 2,
        minor: 0,
        patch: 0,
        pre: Default::default(),
        build: Default::default(),
    };
    assert_eq!(expected, version)
}

#[test]
fn bump_test_bump_minor_version() {
    let version = minor_version(test_version());
    let expected = Version {
        major: 1,
        minor: 3,
        patch: 0,
        pre: Default::default(),
        build: Default::default(),
    };
    assert_eq!(expected, version)
}

#[test]
fn bump_test_bump_patch_version() {
    let version = patch_version(test_version());
    let expected = Version {
        major: 1,
        minor: 2,
        patch: 4,
        pre: Default::default(),
        build: Default::default(),
    };
    assert_eq!(expected, version)
}

#[test]
fn bump_clears_pre_release_and_build() {
    let version = lenient("1.2.3-rc1+build5");
    assert_eq!("rc1", version.pre);
    assert_eq!("build5", version.build);
    assert_eq!(Version::new(2, 0, 0), major_version(version.clone()));
    assert_eq!(Version::new(1, 3, 0), minor_version(version.clone()));
    assert_eq!(Version::new(1, 2, 4), patch_version(version));
}

#[test]
fn from_tag_list_empty() {
    let version_list = VersionList::from_tag_list(&vec![], None);
    let expected = VersionList(vec![]);
    assert_eq!(expected, version_list)
}

#[test]
fn from_tag_list_no_trimmer() {
    let tags = vec!["10.0.0", "2.0.0", "xxxx", "0.1.0", "0.0.1"];
    let string_tags = tags_to_string(&tags);
    let version_list = VersionList::from_tag_list(&string_tags, None);
    let expected_tags = vec!["0.0.1", "0.1.0", "2.0.0", "10.0.0"];
    let expected_versions =
        expected_tags.iter().filter_map(|tag| Version::parse_lenient(tag)).collect::<Vec<_>>();
    let expected = VersionList(expected_versions);
    assert_eq!(expected, version_list);
    assert_eq!(Some(Version::new(10, 0, 0)), version_list.latest_version())
}

#[test]
fn from_tag_list_with_trimmer() {
    let tags =
        vec!["release_10.0.0_xxx", "2.0.0", "xxxx", "release_0.1.0_xxx", "release_0.0.1_xxx"];
    let string_tags = tags_to_string(&tags);
    let token_trimmer = TokenTrimmer::new("release_$version_xxx", "$version");
    let version_list = VersionList::from_tag_list(&string_tags, token_trimmer);
    let expected_tags = vec!["0.0.1", "0.1.0", "2.0.0", "10.0.0"];
    let expected_versions =
        expected_tags.iter().filter_map(|tag| Version::parse_lenient(tag)).collect::<Vec<_>>();
    let expected = VersionList(expected_versions);
    assert_eq!(expected, version_list)
}

#[test]
fn from_tag_list_with_version_pattern() {
    let tags = vec!["release_10.0.0_xxx", "release_0.1.0_xxx"];
    let string_tags = tags_to_string(&tags);
    let token_trimmer = TokenTrimmer::new("release_{version}_xxx", "{version}");
    let version_list = VersionList::from_tag_list(&string_tags, token_trimmer);
    assert_eq!(VersionList(vec![Version::new(0, 1, 0), Version::new(10, 0, 0)]), version_list);
    assert_eq!(Some(Version::new(10, 0, 0)), version_list.latest_version())
}

#[test]
fn latest_version_empty_version_list() {
    let version_list = VersionList::from_tag_list(&vec![], None);
    assert_eq!(None, version_list.latest_version())
}

#[test]
fn latest_version_with_versions() {
    let tags = vec!["10.0.0", "2.0.0", "0.0.1"];
    let string_tags = tags_to_string(&tags);
    let version_list = VersionList::from_tag_list(&string_tags, None);
    let expected_version = Version::parse_lenient("10.0.0").expect("expected version should parse");
    assert_eq!(Some(expected_version), version_list.latest_version())
}

fn tags_to_string(tags: &Vec<&str>) -> Vec<String> {
    tags.iter().map(|tag| tag.to_string()).collect()
}

#[test]
fn from_tag_list_orders_by_number_not_by_text() {
    let tags = vec!["1.10.0", "1.9.0", "1.2.10", "1.2.9"];
    let version_list = VersionList::from_tag_list(&tags_to_string(&tags), None);
    let expected = VersionList(vec![
        Version::new(1, 2, 9),
        Version::new(1, 2, 10),
        Version::new(1, 9, 0),
        Version::new(1, 10, 0),
    ]);
    assert_eq!(expected, version_list)
}

#[test]
fn from_tag_list_puts_a_pre_release_before_its_release() {
    let tags = vec!["1.0.0", "1.0.0-rc.1", "1.0.0-alpha", "1.0.0-rc.10", "1.0.0-rc.2", "0.9.0"];
    let version_list = VersionList::from_tag_list(&tags_to_string(&tags), None);
    let texts: Vec<String> = version_list.0.iter().map(|v| v.to_string()).collect();
    assert_eq!(
        vec!["0.9.0", "1.0.0-alpha", "1.0.0-rc.1", "1.0.0-rc.2", "1.0.0-rc.10", "1.0.0"],
        texts
    );
    assert_eq!("1.0.0", version_list.latest_version().expect("list is not empty").to_string())
}

#[test]
fn from_tag_list_keeps_the_order_of_equal_precedence() {
    let tags = vec!["1.0.0+b", "1.0.0+a", "0.5.0", "1.0.0+c"];
    let version_list = VersionList::from_tag_list(&tags_to_string(&tags), None);
    let texts: Vec<String> = version_list.0.iter().map(|v| v.to_string()).collect();
    assert_eq!(vec!["0.5.0", "1.0.0+b", "1.0.0+a", "1.0.0+c"], texts)
}

#[test]
fn from_tag_list_keeps_every_version_it_reads() {
    let tags = vec!["3.0.0", "1.0.0", "3.0.0", "nope", "2.0.0", "1.0.0"];
    let version_list = VersionList::from_tag_list(&tags_to_string(&tags), None);
    let texts: Vec<String> = version_list.0.iter().map(|v| v.to_string()).collect();
    assert_eq!(vec!["1.0.0", "1.0.0", "2.0.0", "3.0.0", "3.0.0"], texts)
}

#[test]
fn parse_lenient_takes_what_strict_parsing_refuses() {
    assert_eq!(Some(Version::new(1, 0, 0)), Version::parse_lenient("1"));
    assert_eq!(Some(Version::new(1, 2, 3)), Version::parse_lenient("v1.2.3"));
    assert_eq!(None, Version::parse_lenient("xxxx"));
    assert_eq!(None, Version::parse_lenient(""));
    let with_build = lenient("1.2.3.4.5");
    assert_eq!((1, 2, 3), (with_build.major, with_build.minor, with_build.patch));
    assert_eq!("4.5", with_build.build);
    assert_eq!(None, Version::parse("1"));
    assert_eq!(None, Version::parse("v1.2.3"));
    assert_eq!(Some(Version::new(1, 2, 3)), Version::parse("1.2.3"));
    let strict = Version::parse("1.2.3-alpha.1+build").expect("version should parse");
    assert_eq!("alpha.1", strict.pre);
    assert_eq!("build", strict.build);
}

#[test]
fn precedence_follows_semver() {
    let order =
        ["1.0.0-alpha", "1.0.0-alpha.1", "1.0.0-alpha.beta", "1.0.0-beta", "1.0.0-beta.2",
            "1.0.0-beta.11", "1.0.0-rc.1", "1.0.0", "1.0.1", "1.1.0", "2.0.0"];
    for i in 0..order.len() {
        for j in 0..order.len() {
            let a = lenient(order[i]);
            let b = lenient(order[j]);
            let expected = if i < j {
                -1
            } else if i == j {
                0
            } else {
                1
            };
            assert_eq!(expected, a.precedence(&b), "{} against {}", order[i], order[j]);
            assert_eq!(i <= j, a.precedes(&b));
        }
    }
}

#[test]
fn precedence_leaves_build_text_out() {
    let a = lenient("1.0.0+first");
    let b = lenient("1.0.0+second");
    assert_eq!(0, a.precedence(&b));
    assert_eq!(0, b.precedence(&a));
    assert_ne!(a, b);
}

#[test]
fn to_string_writes_every_part() {
    assert_eq!("1.2.3", Version::new(1, 2, 3).to_string());
    assert_eq!("0.0.0", Version::new(0, 0, 0).to_string());
    assert_eq!(
        "18446744073709551615.10.100",
        Version::new(u64::MAX, 10, 100).to_string()
    );
    assert_eq!("1.2.3-rc.1", lenient("1.2.3-rc.1").to_string());
    assert_eq!("1.2.3+b7", lenient("1.2.3+b7").to_string());
    assert_eq!("1.2.3-rc.1+b7", lenient("1.2.3-rc.1+b7").to_string());
}

#[test]
fn decimal_text_writes_digits() {
    assert_eq!("0", decimal_text(0));
    assert_eq!("9", decimal_text(9));
    assert_eq!("10", decimal_text(10));
    assert_eq!("1234567890", decimal_text(1234567890));
    assert_eq!(u64::MAX.to_string(), decimal_text(u64::MAX));
}

#[test]
fn render_writes_the_version_once() {
    let version = Version::new(1, 2, 3);
    assert_eq!("release/1.2.3", render("release/{version}", &version));
    assert_eq!("1.2.3 and {version}", render("{version} and {version}", &version));
    assert_eq!("no marker", render("no marker", &version));
    assert_eq!("", render("", &version));
}

#[test]
fn clone_keeps_every_field() {
    let version = lenient("1.2.3-rc.1+b7");
    assert_eq!(version, version.clone());
    let update = VersionUpdate { current_version: version, next_version: Version::new(2, 0, 0) };
    assert_eq!(update, update.clone());
}

#[test]
fn version_update_new_reads_strict_versions() {
    let update = VersionUpdate::new("1.0.0", "1.0.1");
    let expected = VersionUpdate {
        current_version: Version::new(1, 0, 0),
        next_version: Version::new(1, 0, 1),
    };
    assert_eq!(expected, update);
    assert_eq!(Some(expected), VersionUpdate::parse("1.0.0", "1.0.1"));
    assert_eq!(None, VersionUpdate::parse("1", "1.0.1"));
    assert_eq!(None, VersionUpdate::parse("1.0.0", "next"));
}

fn short_texts(alphabet: &[char], longest: usize) -> Vec<String> {
    let mut all = vec![String::new()];
    let mut last = vec![String::new()];
    for _ in 0..longest {
        let mut next = Vec::new();
        for text in &last {
            for c in alphabet {
                let mut longer = text.clone();
                longer.push(*c);
                next.push(longer);
            }
        }
        all.extend(next.iter().cloned());
        last = next;
    }
    all
}

#[test]
fn what_is_read_leniently_is_written_in_strict_semver() {
    let mut read = 0;
    for tail in short_texts(&['0', '1', '.', '-', '+', 'a', 'v', ' ', 'é'], 4) {
        for head in ["", "1", "1.2", "1.2.3", "v1.2.3", "01.2.3"] {
            let text = format!("{head}{tail}");
            if let Some(version) = Version::parse_lenient(&text) {
                read += 1;
                let written = version.to_string();
                assert_eq!(Some(version), Version::parse(&written), "{text:?} as {written:?}");
            }
        }
    }
    assert!(read > 1000);
}

#[test]
fn precedence_orders_every_pair_one_way_or_the_other() {
    let texts = [
        "1.0.0", "1.0.0-0", "1.0.0-1", "1.0.0-10", "1.0.0-a", "1.0.0-a.1", "1.0.0-a.a",
        "1.0.0-a-", "1.0.0--", "1.0.0-0a", "1.0.0-A", "1.0.0+b", "1.0.1-a", "0.9.9",
        "1.0.0-99999999999999999999", "1.0.0-a.99999999999999999999",
    ];
    let versions: Vec<Version> = texts.iter().filter_map(|text| Version::parse(text)).collect();
    assert_eq!(texts.len(), versions.len());
    for a in &versions {
        assert_eq!(0, a.precedence(a));
        for b in &versions {
            assert_eq!(a.precedence(b), -b.precedence(a));
            for c in &versions {
                if a.precedes(b) && b.precedes(c) {
                    assert!(a.precedes(c), "{a:?}, {b:?}, {c:?}");
                }
            }
        }
    }
}

#[test]
fn precedence_takes_a_text_that_is_no_pre_release_for_none() {
    let odd = Version {
        major: 1,
        minor: 0,
        patch: 0,
        pre: String::from("not a pre-release"),
        build: String::new(),
    };
    let alpha = lenient("1.0.0-alpha");
    let release = Version::new(1, 0, 0);
    assert_eq!(1, odd.precedence(&alpha));
    assert_eq!(-1, alpha.precedence(&odd));
    assert_eq!(-1, odd.precedence(&release));
    assert_eq!(1, release.precedence(&odd));
    assert_eq!(0, odd.precedence(&odd));
}
