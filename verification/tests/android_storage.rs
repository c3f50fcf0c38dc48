use cavestory::android_storage::{
    listing_entries, open_save, path_name, route, OpenOptions, PathComponent, PublicSaves, Route, SaveFile,
    SaveInfo, SeekFrom, StorageError,
};

fn parts(names: &[&str]) -> Vec<PathComponent> {
    let mut v = vec![PathComponent::RootDir];
    for n in names {
        v.push(PathComponent::Normal(n.to_string()));
    }
    v
}

fn options(write: bool, create: bool, append: bool, truncate: bool) -> OpenOptions {
    OpenOptions { read: true, write, create, append, truncate }
}

#[test]
fn absolute_paths_become_slash_joined_names() {
    assert_eq!(path_name(&parts(&["Profile.dat"])), Ok("Profile.dat".to_string()));
    assert_eq!(path_name(&parts(&["replays", "1.rep"])), Ok("replays/1.rep".to_string()));
    assert_eq!(path_name(&parts(&[])), Ok(String::new()));
}

#[test]
fn bad_paths_are_refused_with_the_first_reason() {
    assert_eq!(path_name(&vec![PathComponent::Normal("a".to_string())]), Err(StorageError::NotAbsolute));
    assert_eq!(path_name(&vec![]), Err(StorageError::NotAbsolute));
    assert_eq!(path_name(&parts(&["a\nb"])), Err(StorageError::InvalidName));
    assert_eq!(path_name(&parts(&["a\\b"])), Err(StorageError::InvalidName));
    assert_eq!(path_name(&parts(&[".cavestory-journal"])), Err(StorageError::InvalidName));
    assert_eq!(path_name(&parts(&[".cavestory"])), Ok(".cavestory".to_string()));
    let mut p = parts(&["a"]);
    p.push(PathComponent::ParentDir);
    p.push(PathComponent::NotUnicode);
    assert_eq!(path_name(&p), Err(StorageError::InvalidPath));
    let mut q = parts(&["a"]);
    q.push(PathComponent::NotUnicode);
    assert_eq!(path_name(&q), Err(StorageError::InvalidName));
    assert_eq!(StorageError::NotAbsolute.message(), "Save path must be absolute");
}

#[test]
fn settings_stay_private() {
    assert_eq!(route(&parts(&["settings.json"])), Ok(Route::Private));
    assert_eq!(route(&parts(&["Profile.dat"])), Ok(Route::Public("Profile.dat".to_string())));
    assert_eq!(route(&parts(&["x", "settings.json"])), Ok(Route::Public("x/settings.json".to_string())));
}

#[test]
fn opening_follows_the_options() {
    assert_eq!(open_save("a".to_string(), None, options(false, false, false, false)), Err(StorageError::NotFound));
    let f = open_save("a".to_string(), None, options(true, true, false, false)).unwrap();
    assert!(f.dirty && f.writable && f.data.is_empty());
    let f = open_save("a".to_string(), Some(vec![1, 2, 3]), options(false, false, true, false)).unwrap();
    assert_eq!((f.position, f.writable, f.dirty), (3, true, false));
    let f = open_save("a".to_string(), Some(vec![1, 2, 3]), options(true, false, false, true)).unwrap();
    assert!(f.data.is_empty() && f.dirty);
    let f = open_save("a".to_string(), Some(vec![1, 2, 3]), options(false, false, false, false)).unwrap();
    assert_eq!(f.data, vec![1, 2, 3]);
    assert!(!f.writable && !f.dirty);
}

#[test]
fn writes_overwrite_extend_and_zero_fill() {
    let mut f = open_save("a".to_string(), Some(vec![1, 2, 3]), options(true, false, false, false)).unwrap();
    assert_eq!(f.write(&[9]), Ok(1));
    assert_eq!(f.data, vec![9, 2, 3]);
    assert_eq!(f.seek(SeekFrom::Start(5)), Ok(5));
    assert_eq!(f.write(&[7, 8]), Ok(2));
    assert_eq!(f.data, vec![9, 2, 3, 0, 0, 7, 8]);
    assert_eq!(f.position, 7);
    assert!(f.dirty);
    assert_eq!(f.seek(SeekFrom::End(-2)), Ok(5));
    assert_eq!(f.read(10), vec![7, 8]);
    assert_eq!(f.read(10), Vec::<u8>::new());
    assert_eq!(f.seek(SeekFrom::Current(-100)), Err(StorageError::InvalidSeek));
    assert_eq!(f.position, 7);
}

#[test]
fn appends_go_to_the_end_and_limits_hold() {
    let mut f = open_save("a".to_string(), Some(vec![1]), options(false, false, true, false)).unwrap();
    f.position = 0;
    assert_eq!(f.write(&[2]), Ok(1));
    assert_eq!(f.data, vec![1, 2]);
    let mut r = open_save("a".to_string(), Some(vec![1]), options(false, false, false, false)).unwrap();
    assert_eq!(r.write(&[2]), Err(StorageError::ReadOnly));
    let mut big = SaveFile {
        path: "a".to_string(),
        data: vec![],
        position: 32 * 1024 * 1024,
        writable: true,
        append: false,
        dirty: false,
    };
    assert_eq!(big.write(&[1]), Err(StorageError::TooLarge));
    assert_eq!(big.write(&[]), Ok(0));
}

#[test]
fn metadata_reads_the_platform_answer() {
    assert_eq!(SaveInfo::from_stat(-1), Err(StorageError::NotFound));
    let dir = SaveInfo::from_stat(-2).unwrap();
    assert!(dir.is_dir() && !dir.is_file());
    assert_eq!(dir.len(), 0);
    let file = SaveInfo::from_stat(12).unwrap();
    assert!(file.is_file() && !file.is_dir());
    assert_eq!(file.len(), 12);
}

#[test]
fn listings_drop_the_settings_file() {
    assert_eq!(listing_entries("Profile.dat\nsettings.json\r\nrep\n"), vec!["Profile.dat", "rep"]);
    assert_eq!(listing_entries(""), Vec::<String>::new());
    assert_eq!(listing_entries("a\n\nb"), vec!["a", "", "b"]);
    assert_eq!(PublicSaves::new("/data".to_string()).rmrf(), Err(StorageError::RecursiveDeletion));
}
