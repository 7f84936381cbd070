use jn_installer::error::InstallError;
use jn_installer::resolver::{
    first_flagged, latest_release_url, match_flags, pick_flagged, read_feed, resolve,
    select_asset, select_assets, FeedAsset, ReleaseAsset, VariantSelector,
};

fn asset(name: &str, size: u64) -> ReleaseAsset {
    ReleaseAsset {
        name: name.to_string(),
        download_url: format!("https://example.invalid/{}", name),
        size,
    }
}

fn feed() -> Vec<ReleaseAsset> {
    vec![asset("product-1.2.3.zip", 10), asset("resource_pack_v1.0.0.zip", 20)]
}

#[test]
fn standard_variant_selects_product_archive() {
    let chosen = select_asset(&feed(), &VariantSelector::standard()).unwrap();
    assert_eq!(chosen.name, "product-1.2.3.zip");
    assert_eq!(chosen.download_url, "https://example.invalid/product-1.2.3.zip");
    assert_eq!(chosen.size, 10);
}

#[test]
fn resource_pack_variant_selects_resource_pack() {
    let chosen = select_asset(&feed(), &VariantSelector::resource_pack()).unwrap();
    assert_eq!(chosen, asset("resource_pack_v1.0.0.zip", 20));
}

#[test]
fn no_matching_asset_is_an_error() {
    let assets = vec![asset("readme.txt", 1), asset("product-1.2.zip", 2)];
    assert_eq!(
        select_asset(&assets, &VariantSelector::standard()),
        Err(InstallError::NoMatchingAsset)
    );
    assert_eq!(
        select_asset(&Vec::new(), &VariantSelector::standard()),
        Err(InstallError::NoMatchingAsset)
    );
}

#[test]
fn first_match_in_feed_order_wins() {
    let assets = vec![
        asset("notes.md", 1),
        asset("product-2.0.0.zip", 2),
        asset("product-1.0.0.zip", 3),
    ];
    let chosen = select_asset(&assets, &VariantSelector::standard()).unwrap();
    assert_eq!(chosen, asset("product-2.0.0.zip", 2));
}

#[test]
fn pattern_is_anchored() {
    let assets = vec![asset("xproduct-1.2.3.zip", 1), asset("product-1.2.3.zip.sig", 2)];
    assert_eq!(
        select_asset(&assets, &VariantSelector::standard()),
        Err(InstallError::NoMatchingAsset)
    );
}

#[test]
fn match_flags_follow_the_pattern() {
    let assets = vec![
        asset("jn-1.0.0.zip", 1),
        asset("product-10.20.30.zip", 2),
        asset("product-1.2.3.zip", 3),
        asset("resource_pack_v1.0.0.zip", 4),
    ];
    assert_eq!(match_flags(&assets, &VariantSelector::standard()), vec![false, true, true, false]);
    assert_eq!(
        match_flags(&assets, &VariantSelector::resource_pack()),
        vec![false, false, false, true]
    );
    let custom = VariantSelector::new("def_ver", "^jn-\\d+\\.\\d+\\.\\d+\\.zip$");
    assert_eq!(match_flags(&assets, &custom), vec![true, false, false, false]);
}

#[test]
fn invalid_pattern_matches_nothing() {
    let broken = VariantSelector::new("broken", "(");
    assert_eq!(match_flags(&feed(), &broken), vec![false, false]);
    assert_eq!(select_asset(&feed(), &broken), Err(InstallError::NoMatchingAsset));
}

#[test]
fn first_flagged_finds_the_first_true() {
    assert_eq!(first_flagged(&vec![]), None);
    assert_eq!(first_flagged(&vec![false, false]), None);
    assert_eq!(first_flagged(&vec![true]), Some(0));
    assert_eq!(first_flagged(&vec![false, true, true]), Some(1));
}

#[test]
fn pick_flagged_takes_the_asset_at_the_first_flag() {
    let assets = feed();
    assert_eq!(pick_flagged(&assets, &vec![false, true]), Ok(asset("resource_pack_v1.0.0.zip", 20)));
    assert_eq!(pick_flagged(&assets, &vec![true, true]), Ok(asset("product-1.2.3.zip", 10)));
    assert_eq!(pick_flagged(&assets, &vec![false, false]), Err(InstallError::NoMatchingAsset));
    assert_eq!(pick_flagged(&assets, &vec![]), Err(InstallError::NoMatchingAsset));
    assert_eq!(
        pick_flagged(&assets, &vec![false, false, true]),
        Err(InstallError::NoMatchingAsset)
    );
}

#[test]
fn select_assets_keeps_the_order_of_the_variants() {
    let variants = vec![VariantSelector::resource_pack(), VariantSelector::standard()];
    let chosen = select_assets(&feed(), &variants).unwrap();
    assert_eq!(chosen, vec![asset("resource_pack_v1.0.0.zip", 20), asset("product-1.2.3.zip", 10)]);
    assert_eq!(select_assets(&feed(), &Vec::new()), Ok(Vec::new()));
}

#[test]
fn select_assets_fails_when_one_variant_has_no_asset() {
    let assets = vec![asset("product-1.2.3.zip", 10)];
    let variants = vec![VariantSelector::standard(), VariantSelector::resource_pack()];
    assert_eq!(select_assets(&assets, &variants), Err(InstallError::NoMatchingAsset));
}

#[test]
fn variant_table() {
    let standard = VariantSelector::standard();
    assert_eq!(standard.id, "standard");
    assert_eq!(standard.pattern, r"^product-\d+\.\d+\.\d+\.zip$");
    let pack = VariantSelector::resource_pack();
    assert_eq!(pack.id, "resource-pack");
    assert_eq!(pack.pattern, r"^resource_pack_v\d+\.\d+\.\d+\.zip$");
}

#[test]
fn latest_release_url_is_built_from_org_and_repo() {
    assert_eq!(
        latest_release_url("Just-Natsuki-Team", "NatsukiModDev"),
        "https://api.github.com/repos/Just-Natsuki-Team/NatsukiModDev/releases/latest"
    );
    assert_eq!(latest_release_url("", ""), "https://api.github.com/repos///releases/latest");
}

#[test]
fn asset_clone_is_equal() {
    let a = asset("product-1.2.3.zip", 10);
    assert_eq!(a.clone(), a);
}

#[test]
fn config_starts_with_the_resource_pack() {
    let config = jn_installer::config::InstallConfig::new("/opt/game");
    assert_eq!(config.target_dir, "/opt/game");
    assert!(config.with_resource_pack);
    let chosen = config.variants(VariantSelector::standard(), VariantSelector::resource_pack());
    assert_eq!(chosen, vec![VariantSelector::standard(), VariantSelector::resource_pack()]);
}

#[test]
fn config_toggle_drops_and_restores_the_resource_pack() {
    let mut config = jn_installer::config::InstallConfig::new(".");
    config.toggle_resource_pack();
    assert!(!config.with_resource_pack);
    assert_eq!(config.target_dir, ".");
    let chosen = config.variants(VariantSelector::standard(), VariantSelector::resource_pack());
    assert_eq!(chosen, vec![VariantSelector::standard()]);
    config.toggle_resource_pack();
    assert!(config.with_resource_pack);
    config.set_target_dir("/tmp/elsewhere");
    assert_eq!(config.target_dir, "/tmp/elsewhere");
    assert!(config.with_resource_pack);
    assert_eq!(config.clone(), config);
}

fn feed_entry(name: &str, size: u64) -> FeedAsset {
    FeedAsset {
        name: Some(name.to_string()),
        download_url: Some(format!("https://example.invalid/{}", name)),
        size: Some(size),
    }
}

#[test]
fn read_feed_keeps_complete_entries_in_order() {
    let entries = Some(vec![
        feed_entry("product-1.2.3.zip", 10),
        feed_entry("resource_pack_v1.0.0.zip", 20),
    ]);
    assert_eq!(read_feed(&entries), Ok(feed()));
    assert_eq!(read_feed(&Some(Vec::new())), Ok(Vec::new()));
}

#[test]
fn read_feed_rejects_malformed_metadata() {
    assert_eq!(read_feed(&None), Err(InstallError::ParseError));
    let mut nameless = feed_entry("a", 1);
    nameless.name = None;
    let mut without_url = feed_entry("b", 2);
    without_url.download_url = None;
    let mut sizeless = feed_entry("c", 3);
    sizeless.size = None;
    for broken in [nameless, without_url, sizeless] {
        let entries = Some(vec![feed_entry("product-1.2.3.zip", 10), broken]);
        assert_eq!(read_feed(&entries), Err(InstallError::ParseError));
    }
}

#[test]
fn resolve_passes_fetch_failures_on() {
    let variants = vec![VariantSelector::standard()];
    assert_eq!(resolve(Err(InstallError::NetworkError), &variants), Err(InstallError::NetworkError));
    assert_eq!(resolve(Err(InstallError::ParseError), &variants), Err(InstallError::ParseError));
    assert_eq!(resolve(Ok(None), &variants), Err(InstallError::ParseError));
}

#[test]
fn resolve_selects_from_the_feed() {
    let entries = vec![
        feed_entry("notes.txt", 1),
        feed_entry("resource_pack_v1.0.0.zip", 20),
        feed_entry("product-1.2.3.zip", 10),
    ];
    let variants = vec![VariantSelector::standard(), VariantSelector::resource_pack()];
    assert_eq!(resolve(Ok(Some(entries)), &variants), Ok(feed()));
    let only_notes = vec![feed_entry("notes.txt", 1)];
    assert_eq!(resolve(Ok(Some(only_notes)), &variants), Err(InstallError::NoMatchingAsset));
}
