use skatebit_bot::mod_utils::resolve_version_slug;
use skatebit_bot::types::{
    DownloadLink, ModVersionBranch, BOT_EMBED_COLOR, MAP_TAG, SCRIPT_MOD_TAG,
};
use skatebit_bot::utils::mod_fetch::{mods_url, resolve_lowered_version, resolve_version};

#[test]
fn branches_are_read_from_their_aliases_whatever_the_case() {
    assert_eq!(ModVersionBranch::from_str("alpha"), Ok(ModVersionBranch::Alpha));
    assert_eq!(ModVersionBranch::from_str("Alpha"), Ok(ModVersionBranch::Alpha));
    assert_eq!(ModVersionBranch::from_str("ALPHA"), Ok(ModVersionBranch::Alpha));
    assert_eq!(ModVersionBranch::from_str("beta"), Ok(ModVersionBranch::BetaPublic));
    assert_eq!(ModVersionBranch::from_str("Public"), Ok(ModVersionBranch::BetaPublic));
    assert_eq!(ModVersionBranch::from_str("Beta/Public"), Ok(ModVersionBranch::BetaPublic));
}

#[test]
fn an_unknown_branch_is_rejected_with_a_message_that_quotes_it() {
    assert_eq!(
        ModVersionBranch::from_str("Gamma"),
        Err("Unknown version branch: 'Gamma'. Use Alpha or Beta/Public.".to_string())
    );
    assert_eq!(
        ModVersionBranch::from_str(""),
        Err("Unknown version branch: ''. Use Alpha or Beta/Public.".to_string())
    );
    assert!(ModVersionBranch::from_str(" alpha").is_err());
    assert!(ModVersionBranch::from_str("beta / public").is_err());
}

#[test]
fn from_lowered_takes_lowercase_aliases_only() {
    assert_eq!(ModVersionBranch::from_lowered("alpha"), Some(ModVersionBranch::Alpha));
    assert_eq!(ModVersionBranch::from_lowered("beta/public"), Some(ModVersionBranch::BetaPublic));
    assert_eq!(ModVersionBranch::from_lowered("Alpha"), None);
    assert_eq!(ModVersionBranch::from_lowered(""), None);
}

#[test]
fn branches_are_shown_by_their_labels() {
    assert_eq!(ModVersionBranch::Alpha.to_string(), "Alpha");
    assert_eq!(ModVersionBranch::BetaPublic.to_string(), "Beta/Public");
}

#[test]
fn a_shown_branch_reads_back_as_itself() {
    for branch in [ModVersionBranch::Alpha, ModVersionBranch::BetaPublic] {
        assert_eq!(ModVersionBranch::from_str(&branch.to_string()), Ok(branch));
    }
}

#[test]
fn each_branch_has_its_slug() {
    assert_eq!(resolve_version_slug(ModVersionBranch::Alpha), "1228");
    assert_eq!(resolve_version_slug(ModVersionBranch::BetaPublic), "12104");
}

#[test]
fn version_aliases_resolve_to_slugs_whatever_the_case() {
    assert_eq!(resolve_version("alpha"), Some("1228"));
    assert_eq!(resolve_version("ALPHA"), Some("1228"));
    assert_eq!(resolve_version("beta"), Some("12104"));
    assert_eq!(resolve_version("Public"), Some("12104"));
}

#[test]
fn other_aliases_resolve_to_nothing() {
    assert_eq!(resolve_version("beta/public"), None);
    assert_eq!(resolve_version(""), None);
    assert_eq!(resolve_version("1228"), None);
    assert_eq!(resolve_version(" alpha"), None);
}

#[test]
fn lowered_aliases_resolve_without_folding() {
    assert_eq!(resolve_lowered_version("alpha"), Some("1228"));
    assert_eq!(resolve_lowered_version("public"), Some("12104"));
    assert_eq!(resolve_lowered_version("Alpha"), None);
}

#[test]
fn mod_lists_are_fetched_by_slug() {
    assert_eq!(mods_url("1228"), "https://skatebit-api.vercel.app/api/mods/1228");
    assert_eq!(mods_url(""), "https://skatebit-api.vercel.app/api/mods/");
}

#[test]
fn links_are_written_as_inline_markup() {
    let link = DownloadLink { url: "https://x.test/a".to_string(), label: "Mirror".to_string() };
    assert_eq!(link.to_markup(), "[Mirror](https://x.test/a)");
    let other = DownloadLink { url: "u".to_string(), label: "l".to_string() };
    assert_eq!(DownloadLink::join_markup(&[link.clone(), other]), "[Mirror](https://x.test/a) | [l](u)");
    assert_eq!(DownloadLink::join_markup(&[link]), "[Mirror](https://x.test/a)");
    assert_eq!(DownloadLink::join_markup(&[]), "");
}

#[test]
fn constants_keep_their_values() {
    assert_eq!(BOT_EMBED_COLOR, 0x1eaeef);
    assert_eq!(MAP_TAG, "Map");
    assert_eq!(SCRIPT_MOD_TAG, "Script");
}
