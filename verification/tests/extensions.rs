use uplink::extensions::{ExtensionMap, ExtensionScan, ScanEvent, ScanStep};

const CARGO: &str = "cargo 1.70.0";
const RUSTC: &str = "rustc 1.70.0";

fn start(production: bool) -> ExtensionScan<u32> {
    ExtensionScan::start(production, CARGO.to_string(), RUSTC.to_string())
}

fn loaded(cargo: &str, rustc: &str) -> ScanEvent<u32> {
    ScanEvent::Loaded {
        cargo_version: cargo.to_string(),
        rustc_version: rustc.to_string(),
    }
}

fn named(name: &str, extension: u32) -> ScanEvent<u32> {
    ScanEvent::Named {
        name: name.to_string(),
        extension,
    }
}

fn opened(production: bool) -> ExtensionScan<u32> {
    let mut scan = start(production);
    assert_eq!(scan.step(), ScanStep::CreateUserDirectory);
    scan.advance(ScanEvent::Succeeded);
    assert_eq!(scan.step(), ScanStep::OpenUserDirectory);
    scan.advance(ScanEvent::Succeeded);
    assert_eq!(scan.step(), ScanStep::NextUserEntry);
    scan
}

fn sorted(map: ExtensionMap<u32>) -> Vec<(String, u32)> {
    let mut entries = map.into_entries();
    entries.sort();
    entries
}

#[test]
fn map_keeps_the_later_extension() {
    let mut map = ExtensionMap::new();
    map.insert("a".to_string(), 1u32);
    map.insert("b".to_string(), 2);
    map.insert("a".to_string(), 3);
    assert_eq!(sorted(map), vec![("a".to_string(), 3), ("b".to_string(), 2)]);
}

#[test]
fn empty_directory_gives_an_empty_map() {
    let mut scan = opened(false);
    scan.advance(ScanEvent::EndOfDirectory);
    assert_eq!(scan.step(), ScanStep::Complete);
    assert_eq!(sorted(scan.outcome().unwrap()), vec![]);
}

#[test]
fn only_matching_versions_are_asked_for_their_name() {
    let mut scan = opened(false);
    scan.advance(loaded("cargo 1.69.0", RUSTC));
    assert_eq!(scan.step(), ScanStep::NextUserEntry);
    scan.advance(loaded(CARGO, "rustc 1.69.0"));
    assert_eq!(scan.step(), ScanStep::NextUserEntry);
    scan.advance(ScanEvent::LoadFailed);
    assert_eq!(scan.step(), ScanStep::NextUserEntry);
    scan.advance(loaded(CARGO, RUSTC));
    assert_eq!(scan.step(), ScanStep::NameUserExtension);
    scan.advance(named("emoji", 7));
    assert_eq!(scan.step(), ScanStep::NextUserEntry);
    scan.advance(ScanEvent::EndOfDirectory);
    assert_eq!(sorted(scan.outcome().unwrap()), vec![("emoji".to_string(), 7)]);
}

#[test]
fn production_searches_both_directories() {
    let mut scan = opened(true);
    scan.advance(loaded(CARGO, RUSTC));
    scan.advance(named("emoji", 1));
    scan.advance(loaded(CARGO, RUSTC));
    scan.advance(named("mine", 2));
    scan.advance(ScanEvent::EndOfDirectory);
    assert_eq!(scan.step(), ScanStep::LocateBuiltInDirectory);
    scan.advance(ScanEvent::Succeeded);
    assert_eq!(scan.step(), ScanStep::OpenBuiltInDirectory);
    scan.advance(ScanEvent::Succeeded);
    assert_eq!(scan.step(), ScanStep::NextBuiltInEntry);
    scan.advance(loaded("other", RUSTC));
    assert_eq!(scan.step(), ScanStep::NextBuiltInEntry);
    scan.advance(loaded(CARGO, RUSTC));
    assert_eq!(scan.step(), ScanStep::NameBuiltInExtension);
    scan.advance(named("emoji", 3));
    assert_eq!(scan.step(), ScanStep::NextBuiltInEntry);
    scan.advance(ScanEvent::EndOfDirectory);
    assert_eq!(scan.step(), ScanStep::Complete);
    assert_eq!(
        sorted(scan.outcome().unwrap()),
        vec![("emoji".to_string(), 3), ("mine".to_string(), 2)]
    );
}

#[test]
fn every_failure_gives_the_search_up() {
    let mut scan = start(false);
    scan.advance(ScanEvent::Failed);
    assert_eq!(scan.step(), ScanStep::Aborted);
    assert!(scan.outcome().is_none());

    let mut scan = start(false);
    scan.advance(ScanEvent::Succeeded);
    scan.advance(ScanEvent::Failed);
    assert!(scan.outcome().is_none());

    let mut scan = opened(false);
    scan.advance(loaded(CARGO, RUSTC));
    scan.advance(named("emoji", 7));
    scan.advance(ScanEvent::Failed);
    assert_eq!(scan.step(), ScanStep::Aborted);
    assert!(scan.outcome().is_none());

    let mut scan = opened(true);
    scan.advance(ScanEvent::EndOfDirectory);
    scan.advance(ScanEvent::Failed);
    assert!(scan.outcome().is_none());

    let mut scan = opened(true);
    scan.advance(ScanEvent::EndOfDirectory);
    scan.advance(ScanEvent::Succeeded);
    scan.advance(ScanEvent::Failed);
    assert!(scan.outcome().is_none());
}
