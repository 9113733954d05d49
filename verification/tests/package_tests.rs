use dnf5daemon::attrs::AttrMap;
use dnf5daemon::attrs::AttrValue;
use dnf5daemon::attrs::ListResults;
use dnf5daemon::errors::Error;
use dnf5daemon::package::DnfPackage;
use dnf5daemon::package::ListOptions;
use dnf5daemon::package::OptionValue;
use dnf5daemon::package::PackageAttr;
use dnf5daemon::package::Scope;
use dnf5daemon::package::build_packages;
use dnf5daemon::package::query_options;

fn complete_record() -> AttrMap {
    let mut m = AttrMap::new();
    m.insert("name".to_string(), AttrValue::Str("dnf5".to_string()));
    m.insert("arch".to_string(), AttrValue::Str("x86_64".to_string()));
    m.insert("evr".to_string(), AttrValue::Str("5.1.13-1.fc39".to_string()));
    m.insert("repo_id".to_string(), AttrValue::Str("updates".to_string()));
    m.insert("is_installed".to_string(), AttrValue::Bool(true));
    m.insert("install_size".to_string(), AttrValue::U64(9_441_280));
    m
}

#[test]
fn package_from_complete_record_round_trips() {
    let pkg = DnfPackage::from(&complete_record()).unwrap();
    assert_eq!(pkg.name, "dnf5");
    assert_eq!(pkg.arch, "x86_64");
    assert_eq!(pkg.evr, "5.1.13-1.fc39");
    assert_eq!(pkg.repo_id, "updates");
    assert!(pkg.is_installed);
    assert_eq!(pkg.size, 9_441_280);
}

#[test]
fn package_from_missing_key_is_malformed() {
    for key in ["name", "arch", "evr", "repo_id", "is_installed", "install_size"] {
        let mut m = AttrMap::new();
        if key != "name" {
            m.insert("name".to_string(), AttrValue::Str("dnf5".to_string()));
        }
        if key != "arch" {
            m.insert("arch".to_string(), AttrValue::Str("x86_64".to_string()));
        }
        if key != "evr" {
            m.insert("evr".to_string(), AttrValue::Str("5.1.13-1.fc39".to_string()));
        }
        if key != "repo_id" {
            m.insert("repo_id".to_string(), AttrValue::Str("updates".to_string()));
        }
        if key != "is_installed" {
            m.insert("is_installed".to_string(), AttrValue::Bool(false));
        }
        if key != "install_size" {
            m.insert("install_size".to_string(), AttrValue::U64(1));
        }
        match DnfPackage::from(&m) {
            Err(Error::MalformedRecord(attr)) => assert_eq!(attr, key),
            other => panic!("expected MalformedRecord for {}, got {:?}", key, other),
        }
    }
}

#[test]
fn package_from_wrong_wire_type_is_malformed() {
    let mut m = complete_record();
    m.insert("install_size".to_string(), AttrValue::Str("big".to_string()));
    match DnfPackage::from(&m) {
        Err(Error::MalformedRecord(attr)) => assert_eq!(attr, "install_size"),
        other => panic!("expected MalformedRecord, got {:?}", other),
    }
}

#[test]
fn attr_map_later_insert_shadows_earlier() {
    let mut m = AttrMap::new();
    m.insert("name".to_string(), AttrValue::Str("old".to_string()));
    m.insert("name".to_string(), AttrValue::Str("new".to_string()));
    assert_eq!(m.get_str("name").unwrap().as_str(), "new");
    assert!(m.get_str("missing").is_none());
    assert!(m.get_bool("name").is_none());
    assert!(m.get_u64("name").is_none());
}

#[test]
fn build_packages_maps_every_record() {
    let mut second = complete_record();
    second.insert("name".to_string(), AttrValue::Str("dnf5-plugins".to_string()));
    second.insert("is_installed".to_string(), AttrValue::Bool(false));
    let results = ListResults { items: vec![complete_record(), second] };
    let pkgs = build_packages(&results).unwrap();
    assert_eq!(pkgs.len(), 2);
    assert_eq!(pkgs[0].name, "dnf5");
    assert_eq!(pkgs[1].name, "dnf5-plugins");
    assert!(!pkgs[1].is_installed);
}

#[test]
fn build_packages_fails_the_whole_batch_on_one_malformed_record() {
    let mut bad = complete_record();
    bad.insert("evr".to_string(), AttrValue::Bool(true));
    let results = ListResults { items: vec![complete_record(), bad] };
    match build_packages(&results) {
        Err(Error::MalformedRecord(attr)) => assert_eq!(attr, "evr"),
        other => panic!("expected MalformedRecord, got {:?}", other),
    }
}

#[test]
fn query_options_requires_a_pattern() {
    let no_patterns: Vec<String> = Vec::new();
    assert!(matches!(query_options(&no_patterns, Scope::All), Err(Error::InvalidArgument)));
}

#[test]
fn query_options_builds_the_listing_request() {
    let patterns = vec!["dnf5*".to_string()];
    let options = query_options(&patterns, Scope::Installed).unwrap();
    assert_eq!(
        options.package_attrs,
        vec![
            PackageAttr::Name,
            PackageAttr::InstallSize,
            PackageAttr::Arch,
            PackageAttr::Evr,
            PackageAttr::RepoId,
            PackageAttr::IsInstalled,
        ]
    );
    assert_eq!(options.patterns, vec!["dnf5*".to_string()]);
    assert_eq!(options.scope, Scope::Installed);
    assert!(options.icase);
    assert!(!options.with_src);
    assert!(options.with_nevra);
    assert!(!options.with_provides);
    assert!(!options.with_filenames);
    assert!(!options.with_binaries);
}

#[test]
fn to_dbus_lists_the_option_pairs_in_order() {
    let patterns = vec!["dnf5*".to_string(), "bash".to_string()];
    let options = query_options(&patterns, Scope::Available).unwrap();
    let pairs = options.to_dbus();
    assert_eq!(pairs.len(), 9);

    assert_eq!(pairs[0].0, "package_attrs");
    match &pairs[0].1 {
        OptionValue::StrList(names) => assert_eq!(
            names,
            &vec![
                "name".to_string(),
                "install_size".to_string(),
                "arch".to_string(),
                "evr".to_string(),
                "repo_id".to_string(),
                "is_installed".to_string(),
            ]
        ),
        other => panic!("expected attribute names, got {:?}", other),
    }

    assert_eq!(pairs[1].0, "scope");
    match &pairs[1].1 {
        OptionValue::Str(scope) => assert_eq!(scope, "available"),
        other => panic!("expected scope name, got {:?}", other),
    }

    assert_eq!(pairs[2].0, "patterns");
    match &pairs[2].1 {
        OptionValue::StrList(ps) => {
            assert_eq!(ps, &vec!["dnf5*".to_string(), "bash".to_string()])
        },
        other => panic!("expected patterns, got {:?}", other),
    }

    let switches = [
        ("icase", true),
        ("with_src", false),
        ("with_nevra", true),
        ("with_provides", false),
        ("with_filenames", false),
        ("with_binaries", false),
    ];
    for (i, (key, value)) in switches.iter().enumerate() {
        assert_eq!(pairs[3 + i].0, *key);
        match pairs[3 + i].1 {
            OptionValue::Bool(b) => assert_eq!(b, *value),
            ref other => panic!("expected a boolean switch, got {:?}", other),
        }
    }
}

#[test]
fn builder_defaults_match_the_listing_call() {
    let options = ListOptions::builder().build();
    assert!(options.package_attrs.is_empty());
    assert!(options.patterns.is_empty());
    assert_eq!(options.scope, Scope::All);
    assert!(options.icase);
    assert!(!options.with_src);
    assert!(options.with_nevra);
    assert!(!options.with_provides);
    assert!(!options.with_filenames);
    assert!(!options.with_binaries);
}

#[test]
fn scope_from_is_case_insensitive_with_default() {
    assert_eq!(Scope::from("installed"), Scope::Installed);
    assert_eq!(Scope::from("AVAILABLE"), Scope::Available);
    assert_eq!(Scope::from("Upgrades"), Scope::Upgrades);
    assert_eq!(Scope::from("upgradable"), Scope::Upgradable);
    assert_eq!(Scope::from("all"), Scope::All);
    assert_eq!(Scope::from("anything else"), Scope::All);
    assert_eq!(Scope::Upgrades.name_str(), "upgrades");
}

#[test]
fn package_attr_from_is_case_insensitive_with_default() {
    assert_eq!(PackageAttr::from("install_size".to_string()), PackageAttr::InstallSize);
    assert_eq!(PackageAttr::from("Full_Nevra".to_string()), PackageAttr::FullNevra);
    assert_eq!(PackageAttr::from("EVR".to_string()), PackageAttr::Evr);
    assert_eq!(PackageAttr::from("no such attribute".to_string()), PackageAttr::Name);
    assert_eq!(PackageAttr::RequiresPre.name_str(), "requires_pre");
    assert_eq!(PackageAttr::RepoId.name_str(), "repo_id");
}
