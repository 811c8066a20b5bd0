use skatebit_bot::mod_utils;
use skatebit_bot::types::{DownloadLink, ModEntry};
use skatebit_bot::utils::mod_format;

fn bare(title: &str) -> ModEntry {
    ModEntry {
        title: title.to_string(),
        author: None,
        working_version: None,
        game_version: None,
        keybind: None,
        features: None,
        note: None,
        download_links: None,
    }
}

fn full() -> ModEntry {
    ModEntry {
        title: "XXL Mod".to_string(),
        author: Some("Jane".to_string()),
        working_version: Some("1.2.3".to_string()),
        game_version: Some("1.2.10.4".to_string()),
        keybind: Some("F7".to_string()),
        features: Some(vec!["Stats".to_string(), "Replay".to_string()]),
        note: Some("Needs UMM".to_string()),
        download_links: Some(vec![
            DownloadLink { url: "https://a.test".to_string(), label: "Main".to_string() },
            DownloadLink { url: "https://b.test".to_string(), label: "Mirror".to_string() },
        ]),
    }
}

#[test]
fn description_of_a_full_entry() {
    assert_eq!(
        mod_utils::format_mod_entry(&full()),
        "**Author:** Jane\n**Mod Version:** 1.2.3\n**Game Version:** 1.2.10.4\n**Keybind:** F7\n**Features:** Stats, Replay\n**Note:** Needs UMM\nLinks: [Main](https://a.test) | [Mirror](https://b.test)"
    );
}

#[test]
fn description_of_a_bare_entry_uses_the_fallbacks_and_is_trimmed() {
    assert_eq!(
        mod_utils::format_mod_entry(&bare("t")),
        "**Author:** Unknown\n**Mod Version:** N/A\n**Game Version:** N/A\n**Keybind:** None\n**Features:** N/A"
    );
}

#[test]
fn description_shows_no_feature_list_as_not_available() {
    let mut entry = bare("t");
    entry.features = Some(vec![]);
    assert!(mod_utils::format_mod_entry(&entry).ends_with("**Features:** N/A"));
}

#[test]
fn description_leaves_out_an_empty_note_and_an_empty_link_list() {
    let mut entry = bare("t");
    entry.note = Some(String::new());
    entry.download_links = Some(vec![]);
    assert_eq!(mod_utils::format_mod_entry(&entry), mod_utils::format_mod_entry(&bare("t")));
}

#[test]
fn description_with_a_note_alone_loses_the_final_line_break() {
    let mut entry = bare("t");
    entry.note = Some("Read me".to_string());
    assert!(mod_utils::format_mod_entry(&entry).ends_with("**Features:** N/A\n**Note:** Read me"));
}

#[test]
fn description_is_trimmed_at_both_ends() {
    let mut entry = bare("t");
    entry.note = Some("trailing  \n ".to_string());
    assert!(mod_utils::format_mod_entry(&entry).ends_with("**Note:** trailing"));
}

#[test]
fn listing_of_a_full_entry() {
    assert_eq!(
        mod_format::format_mod_entry(&full()),
        "**Title:** XXL Mod\n**Author:** Jane\n**Mod Version:** 1.2.3\n**Game Version:** 1.2.10.4\n**Keybind:** F7\n**Features:** Stats, Replay\n**Note:** Needs UMM\n[Main](https://a.test) | [Mirror](https://b.test)"
    );
}

#[test]
fn listing_of_a_bare_entry_keeps_the_final_line_break() {
    assert_eq!(
        mod_format::format_mod_entry(&bare("Only Title")),
        "**Title:** Only Title\n**Author:** Unknown\n**Mod Version:** N/A\n**Game Version:** N/A\n**Keybind:** None\n**Features:** \n"
    );
}

#[test]
fn listing_shows_an_empty_feature_list_as_nothing() {
    let mut entry = bare("t");
    entry.features = Some(vec![]);
    entry.note = Some(String::new());
    entry.download_links = Some(vec![]);
    assert_eq!(mod_format::format_mod_entry(&entry), mod_format::format_mod_entry(&bare("t")));
}

#[test]
fn listing_with_one_feature_and_one_link() {
    let mut entry = bare("t");
    entry.features = Some(vec!["One".to_string()]);
    entry.download_links =
        Some(vec![DownloadLink { url: "u".to_string(), label: "l".to_string() }]);
    assert!(mod_format::format_mod_entry(&entry).ends_with("**Features:** One\n[l](u)"));
}
