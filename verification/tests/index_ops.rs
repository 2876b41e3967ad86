use asset_server::index::Bucket;
use asset_server::index::MyData;
use asset_server::routes::DeleteOutcome;
use asset_server::routes::Gate;
use asset_server::routes::RenameOutcome;
use asset_server::routes::UploadOutcome;
use asset_server::routes::delete_check;
use asset_server::routes::delete_commit;
use asset_server::routes::list_imgs;
use asset_server::routes::rename_check;
use asset_server::routes::rename_commit;
use asset_server::routes::upload_check;
use asset_server::routes::upload_commit;

fn names(v: &[&str]) -> Vec<String> {
    v.iter().map(|s| s.to_string()).collect()
}

fn loaded(files: &[&str], images: &[&str]) -> MyData {
    MyData::new_loaded(names(files), names(images))
}

const SECRET: &str = "sesame";

fn s(v: &str) -> String {
    v.to_string()
}

#[test]
fn initial_load_drops_the_placeholder_and_duplicates() {
    let d = loaded(&[".keep", "notes.txt"], &[".keep", "a.png", "a.png", "b.png"]);
    assert!(d.contains(Bucket::Generic, &s("notes.txt")));
    assert!(!d.contains(Bucket::Generic, &s(".keep")));
    assert!(d.contains(Bucket::Image, &s("a.png")));
    assert!(d.contains(Bucket::Image, &s("b.png")));
    assert!(!d.contains(Bucket::Image, &s(".keep")));
    let mut listed = d.list(Bucket::Image);
    listed.sort();
    assert_eq!(listed, vec![s("a.png"), s("b.png")]);
}

#[test]
fn buckets_are_independent() {
    let mut d = loaded(&["shared.bin"], &[]);
    d.insert(Bucket::Image, s("shared.bin"));
    assert!(d.contains(Bucket::Generic, &s("shared.bin")));
    assert!(d.contains(Bucket::Image, &s("shared.bin")));
    d.remove(Bucket::Image, &s("shared.bin"));
    assert!(d.contains(Bucket::Generic, &s("shared.bin")));
    assert!(!d.contains(Bucket::Image, &s("shared.bin")));
}

#[test]
fn upload_needs_the_secret() {
    let d = loaded(&[], &[]);
    let g = upload_check(&d, &s("new.png"), &s("wrong"), &s(SECRET));
    assert_eq!(g, Gate::Unauthorized);
    let g = upload_check(&d, &s("new.png"), &s(SECRET), &s(SECRET));
    assert_eq!(g, Gate::Proceed);
}

#[test]
fn upload_of_a_known_name_is_a_conflict() {
    let d = loaded(&[], &["a.png"]);
    let g = upload_check(&d, &s("a.png"), &s(SECRET), &s(SECRET));
    assert_eq!(g, Gate::Conflict);
}

#[test]
fn failed_disk_write_never_reaches_the_index() {
    let mut d = loaded(&[], &[]);
    assert_eq!(
        upload_check(&d, &s("new.png"), &s(SECRET), &s(SECRET)),
        Gate::Proceed
    );
    let r = upload_commit(&mut d, s("new.png"), false);
    assert_eq!(r, UploadOutcome::WriteFailed);
    assert!(!d.contains(Bucket::Image, &s("new.png")));
}

#[test]
fn successful_write_reaches_the_index() {
    let mut d = loaded(&[], &[]);
    let r = upload_commit(&mut d, s("new.png"), true);
    assert_eq!(r, UploadOutcome::Created);
    assert!(d.contains(Bucket::Image, &s("new.png")));
}

#[test]
fn racing_uploads_of_one_name_let_exactly_one_through() {
    let mut d = loaded(&[], &[]);
    let first = upload_check(&d, &s("hot.png"), &s(SECRET), &s(SECRET));
    assert_eq!(first, Gate::Proceed);
    upload_commit(&mut d, s("hot.png"), true);
    let second = upload_check(&d, &s("hot.png"), &s(SECRET), &s(SECRET));
    assert_eq!(second, Gate::Conflict);
}

#[test]
fn uploads_of_distinct_names_pass_independently() {
    let mut d = loaded(&[], &[]);
    assert_eq!(
        upload_check(&d, &s("one.png"), &s(SECRET), &s(SECRET)),
        Gate::Proceed
    );
    upload_commit(&mut d, s("one.png"), true);
    assert_eq!(
        upload_check(&d, &s("two.png"), &s(SECRET), &s(SECRET)),
        Gate::Proceed
    );
    upload_commit(&mut d, s("two.png"), true);
    assert!(d.contains(Bucket::Image, &s("one.png")));
    assert!(d.contains(Bucket::Image, &s("two.png")));
}

#[test]
fn delete_flows() {
    let mut d = loaded(&[], &["a.png"]);
    assert_eq!(
        delete_check(&d, &s("a.png"), &s("wrong"), &s(SECRET)),
        Gate::Unauthorized
    );
    assert_eq!(
        delete_check(&d, &s("missing.png"), &s(SECRET), &s(SECRET)),
        Gate::NotFound
    );
    assert_eq!(
        delete_check(&d, &s("a.png"), &s(SECRET), &s(SECRET)),
        Gate::Proceed
    );
    let r = delete_commit(&mut d, &s("a.png"), false);
    assert_eq!(r, DeleteOutcome::NotFound);
    assert!(d.contains(Bucket::Image, &s("a.png")));
    let r = delete_commit(&mut d, &s("a.png"), true);
    assert_eq!(r, DeleteOutcome::Deleted);
    assert!(!d.contains(Bucket::Image, &s("a.png")));
}

#[test]
fn rename_flows() {
    let mut d = loaded(&[], &["a.png", "b.png"]);
    assert_eq!(
        rename_check(&d, &s("missing.png"), &s("c.png"), &s(SECRET), &s(SECRET)),
        Gate::NotFound
    );
    assert_eq!(
        rename_check(&d, &s("a.png"), &s("b.png"), &s(SECRET), &s(SECRET)),
        Gate::Conflict
    );
    assert_eq!(
        rename_check(&d, &s("a.png"), &s("c.png"), &s("wrong"), &s(SECRET)),
        Gate::Unauthorized
    );
    assert_eq!(
        rename_check(&d, &s("a.png"), &s("c.png"), &s(SECRET), &s(SECRET)),
        Gate::Proceed
    );
    let r = rename_commit(&mut d, &s("a.png"), s("c.png"), false);
    assert_eq!(r, RenameOutcome::NotFound);
    assert!(d.contains(Bucket::Image, &s("a.png")));
    let r = rename_commit(&mut d, &s("a.png"), s("c.png"), true);
    assert_eq!(r, RenameOutcome::Renamed);
    assert!(!d.contains(Bucket::Image, &s("a.png")));
    assert!(d.contains(Bucket::Image, &s("c.png")));
    assert!(d.contains(Bucket::Image, &s("b.png")));
}

#[test]
fn listing_needs_the_secret_but_never_errors() {
    let d = loaded(&[], &["a.png", "b.png"]);
    let denied = list_imgs(&d, &s("wrong"), &s(SECRET));
    assert!(denied.is_empty());
    let mut granted = list_imgs(&d, &s(SECRET), &s(SECRET));
    granted.sort();
    assert_eq!(granted, vec![s("a.png"), s("b.png")]);
}

#[test]
fn an_empty_bucket_lists_empty() {
    let d = loaded(&[], &[]);
    assert!(list_imgs(&d, &s("sesame"), &s(SECRET)).is_empty());
    assert!(d.list(Bucket::Generic).is_empty());
}

#[test]
fn list_tracks_the_current_membership_exactly() {
    let mut d = loaded(&[], &["a.png"]);
    upload_commit(&mut d, s("b.png"), true);
    delete_commit(&mut d, &s("a.png"), true);
    let listed = list_imgs(&d, &s(SECRET), &s(SECRET));
    assert_eq!(listed, vec![s("b.png")]);
}
