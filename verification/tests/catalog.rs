use sentinel::app::DomainError;
use sentinel::storage::blocked_domains::{catalog_from_contents, save_catalog, BlockedDomainsStore, CatalogError};

fn strings(items: &[&str]) -> Vec<String> {
    items.iter().map(|s| s.to_string()).collect()
}

#[test]
fn reads_the_catalogue_sorted_and_without_repetitions() {
    let listed = catalog_from_contents("# catalogo\nzeta.com\n\n  Alpha.com \nzeta.com.\n").unwrap();
    assert_eq!(listed, strings(&["alpha.com", "zeta.com"]));
}

#[test]
fn reading_stops_at_the_first_invalid_entry() {
    assert_eq!(catalog_from_contents("ok.com\nlocalhost\nbad..com\n").unwrap_err(), DomainError::MissingDot);
}

#[test]
fn saving_sorts_and_ends_every_line() {
    let saved = save_catalog(&strings(&["b.com", "A.com", "b.com"])).unwrap();
    assert_eq!(saved.domains, strings(&["a.com", "b.com"]));
    assert_eq!(saved.body, "a.com\nb.com\n");
    let empty = save_catalog(&Vec::new()).unwrap();
    assert!(empty.domains.is_empty());
    assert_eq!(empty.body, "");
}

#[test]
fn what_is_saved_reads_back() {
    let saved = save_catalog(&strings(&["tracker.io", "ads.example.com", "pixel.net"])).unwrap();
    assert_eq!(catalog_from_contents(&saved.body).unwrap(), saved.domains);
}

#[test]
fn adding_then_removing_gives_the_catalogue_back() {
    let store = BlockedDomainsStore::new("/tmp/blocklist.txt".to_string());
    let current = strings(&["a.com", "c.com"]);
    let added = store.add(&current, " B.com ").unwrap();
    assert_eq!(added.domains, strings(&["a.com", "b.com", "c.com"]));
    let removed = store.remove(&added.domains, "b.com").unwrap();
    assert_eq!(removed.domains, current);
    assert_eq!(removed.body, "a.com\nc.com\n");
}

#[test]
fn refuses_duplicates_and_missing_targets() {
    let store = BlockedDomainsStore::new("/tmp/blocklist.txt".to_string());
    let current = strings(&["a.com", "c.com"]);
    assert_eq!(store.add(&current, "A.COM").err(), Some(CatalogError::AlreadyListed));
    assert_eq!(store.add(&current, "nodot").err(), Some(CatalogError::InvalidDomain(DomainError::MissingDot)));
    assert_eq!(store.update(&current, "x.com", "y.com").err(), Some(CatalogError::EditTargetMissing));
    assert_eq!(store.update(&current, "a.com", "c.com").err(), Some(CatalogError::EditWouldDuplicate));
    assert_eq!(store.remove(&current, "x.com").err(), Some(CatalogError::RemoveTargetMissing));
    assert_eq!(CatalogError::AlreadyListed.message(), "ese dominio ya existe en el catalogo activo");
    assert_eq!(CatalogError::RemoveTargetMissing.message(), "no se encontro el dominio seleccionado para eliminar");
}

#[test]
fn updating_replaces_the_entry_and_resorts() {
    let store = BlockedDomainsStore::new("/tmp/blocklist.txt".to_string());
    let current = strings(&["a.com", "c.com"]);
    let updated = store.update(&current, "a.com", "Z.com").unwrap();
    assert_eq!(updated.domains, strings(&["c.com", "z.com"]));
    let same = store.update(&current, "a.com", "a.com").unwrap();
    assert_eq!(same.domains, current);
}

#[test]
fn add_and_remove_change_one_entry_and_read_back() {
    let store = BlockedDomainsStore::new("/tmp/blocklist.txt".to_string());
    let current = strings(&["a.com", "c.com", "e.com"]);
    let added = store.add(&current, "D.com").unwrap();
    assert_eq!(added.domains.len(), current.len() + 1);
    assert_eq!(catalog_from_contents(&added.body).unwrap(), added.domains);
    let removed = store.remove(&current, "c.com").unwrap();
    assert_eq!(removed.domains, strings(&["a.com", "e.com"]));
    assert_eq!(catalog_from_contents(&removed.body).unwrap(), removed.domains);
}
