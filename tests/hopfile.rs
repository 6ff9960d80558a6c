use hopper::hopfile::{Hopfile, Provider, Resource};

#[test]
fn resource_with_provider() {
    let r = Resource::from_text("modrinth:sodium").unwrap();
    assert_eq!(r.provider, Provider::Modrinth);
    assert_eq!(r.name, "sodium");
}

#[test]
fn resource_name_keeps_later_colons() {
    let r = Resource::from_text("modrinth:a:b").unwrap();
    assert_eq!(r.name, "a:b");
}

#[test]
fn bare_resource_uses_default_provider() {
    let r = Resource::from_text("lithium").unwrap();
    assert_eq!(r.provider, Provider::Modrinth);
    assert_eq!(r.name, "lithium");
}

#[test]
fn unknown_provider_or_empty_text_is_refused() {
    assert!(Resource::from_text("curse:jei").is_err());
    assert!(Resource::from_text("").is_err());
}

#[test]
fn resource_written_with_provider() {
    let r: Resource = "iris".parse().unwrap();
    assert_eq!(r.to_text(), "modrinth:iris");
    assert_eq!(Provider::Modrinth.to_text(), "modrinth");
    assert_eq!(Provider::from_text("modrinth"), Ok(Provider::Modrinth));
    assert_eq!(Provider::from_text("other"), Err(()));
}

#[test]
fn new_hopfile_defaults_its_version() {
    let h = Hopfile::new(None, None);
    assert_eq!(h.mc_version, "1.19.1");
    assert!(h.template.is_none());
    assert!(h.packages.mods.is_empty());
    assert!(h.packages.resources.is_empty());
}

#[test]
fn new_hopfile_keeps_given_version() {
    let h = Hopfile::new(Some("base".to_string()), Some("1.20.4".to_string()));
    assert_eq!(h.mc_version, "1.20.4");
    assert_eq!(h.template.as_deref(), Some("base"));
}

#[test]
fn resource_text_reads_back() {
    let r = Resource::from_text("modrinth:a:b").unwrap();
    let back: Resource = r.to_text().parse().unwrap();
    assert_eq!(back.provider, r.provider);
    assert_eq!(back.name, "a:b");
}
