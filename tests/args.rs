use hopper::args::{Command, HopArgs, Loader, PackageParseError, PackageType, Server};
use hopper::error::ExitKind;

fn invalid(s: &str) -> Result<PackageType, PackageParseError> {
    Err(PackageParseError::Invalid(s.to_string()))
}

fn same(a: Result<PackageType, PackageParseError>, b: Result<PackageType, PackageParseError>) {
    match (a, b) {
        (Ok(x), Ok(y)) => assert_eq!(x, y),
        (Err(PackageParseError::Invalid(x)), Err(PackageParseError::Invalid(y))) => assert_eq!(x, y),
        (x, y) => panic!("{:?} differs from {:?}", x, y),
    }
}

#[test]
fn loaders_take_mod_or_pack() {
    same(PackageType::from_text("fabric-mod"), Ok(PackageType::Mod(Loader::Fabric)));
    same(PackageType::from_text("forge-mod"), Ok(PackageType::Mod(Loader::Forge)));
    same(PackageType::from_text("quilt-pack"), Ok(PackageType::Pack(Loader::Quilt)));
}

#[test]
fn servers_and_resources_decide_alone() {
    same(PackageType::from_text("paper-plugin"), Ok(PackageType::Plugin(Server::Paper)));
    same(PackageType::from_text("sponge-x"), Ok(PackageType::Plugin(Server::Sponge)));
    same(PackageType::from_text("bukkit-"), Ok(PackageType::Plugin(Server::Bukkit)));
    same(PackageType::from_text("resource-pack"), Ok(PackageType::ResourcePack));
}

#[test]
fn package_type_errors_name_the_bad_part() {
    same(PackageType::from_text("fabric"), invalid("fabric: Invalid package type."));
    same(PackageType::from_text("a-b-c"), invalid("a-b-c: Invalid package type."));
    same(PackageType::from_text("foo-mod"), invalid("foo: Invalid package type."));
    same(PackageType::from_text("fabric-plugin"), invalid("plugin: Invalid package type."));
}

#[test]
fn package_type_reads_through_from_str() {
    let t: PackageType = "forge-pack".parse().unwrap();
    assert_eq!(t, PackageType::Pack(Loader::Forge));
}

#[test]
fn default_package_type_is_dummy() {
    assert_eq!(PackageType::default(), PackageType::Dummy);
}

#[test]
fn parse_error_exits_as_data_error() {
    let (m, k) = PackageParseError::Invalid("x: Invalid package type.".to_string()).into_exit();
    assert_eq!(m, "x: Invalid package type.");
    assert_eq!(k, ExitKind::DataErr);
}

#[test]
fn command_names() {
    let c = Command::List(HopArgs { hopfile: vec![], mc_version: vec![], package_type: None });
    assert_eq!(c.name(), "list");
    let c = Command::Update(HopArgs { hopfile: vec![], mc_version: vec![], package_type: None });
    assert_eq!(c.name(), "update");
}
