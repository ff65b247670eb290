use backend_supervisor::legacy::{
    LegacyDbAction, LegacyDbLocator, LEGACY_DB_PRIMARY, LEGACY_DB_SECONDARY,
};

struct Found {
    path: String,
    probed: Vec<String>,
}

fn find(hint: Option<&str>, present: &[&str]) -> Found {
    let mut locator = LegacyDbLocator::new(hint);
    let mut probed = Vec::new();
    loop {
        match locator.action() {
            LegacyDbAction::Done(path) => return Found { path, probed },
            LegacyDbAction::Probe(path) => {
                let exists = present.contains(&path.as_str());
                probed.push(path);
                locator = locator.step(exists);
            }
        }
        assert!(probed.len() <= 3);
    }
}

#[test]
fn known_locations() {
    assert_eq!(
        LEGACY_DB_PRIMARY,
        "/Volumes/PubliLab-EXHD/Publilab/Projects/PubliLab/GitHub/Linkedin/backend/app.db"
    );
    assert_eq!(
        LEGACY_DB_SECONDARY,
        "/Volumes/PubliLab-EXHD/Publilab/Projects/PubliLab/GitHub/linkedin/backend/app.db"
    );
}

#[test]
fn hint_that_exists_is_taken_trimmed() {
    let found = find(Some("  /old/app.db\n"), &["/old/app.db", LEGACY_DB_PRIMARY]);
    assert_eq!(found.path, "/old/app.db");
    assert_eq!(found.probed, vec!["/old/app.db".to_string()]);
}

#[test]
fn hint_that_is_missing_falls_to_known_locations() {
    let found = find(Some("/old/app.db"), &[LEGACY_DB_SECONDARY]);
    assert_eq!(found.path, LEGACY_DB_SECONDARY);
    assert_eq!(
        found.probed,
        vec![
            "/old/app.db".to_string(),
            LEGACY_DB_PRIMARY.to_string(),
            LEGACY_DB_SECONDARY.to_string()
        ]
    );
}

#[test]
fn blank_hint_is_not_probed() {
    let found = find(Some(" \t "), &[LEGACY_DB_PRIMARY, LEGACY_DB_SECONDARY]);
    assert_eq!(found.path, LEGACY_DB_PRIMARY);
    assert_eq!(found.probed, vec![LEGACY_DB_PRIMARY.to_string()]);
}

#[test]
fn nothing_found_is_the_empty_text() {
    let found = find(None, &[]);
    assert_eq!(found.path, "");
    assert_eq!(
        found.probed,
        vec![LEGACY_DB_PRIMARY.to_string(), LEGACY_DB_SECONDARY.to_string()]
    );
    assert_eq!(find(Some("/old/app.db"), &[]).path, "");
}

#[test]
fn a_finished_legacy_locator_stays_finished() {
    let locator = LegacyDbLocator::new(None).step(true);
    assert_eq!(locator.action(), LegacyDbAction::Done(LEGACY_DB_PRIMARY.to_string()));
    let locator = locator.step(false).step(true);
    assert_eq!(locator.action(), LegacyDbAction::Done(LEGACY_DB_PRIMARY.to_string()));
    let empty = LegacyDbLocator::new(None).step(false).step(false);
    assert_eq!(empty.action(), LegacyDbAction::Done(String::new()));
    assert_eq!(empty.step(true).action(), LegacyDbAction::Done(String::new()));
}
