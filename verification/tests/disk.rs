use image_saver::{reply, SaveRequest};
use std::collections::{BTreeMap, BTreeSet};

/// A disk in memory, with as much of a real one as a save can meet: nested
/// directories, files that are replaced when written again, a file standing
/// where a directory is asked for, and directories that take nothing new.
struct Disk {
    directories: BTreeSet<String>,
    files: BTreeMap<String, Vec<u8>>,
    locked: BTreeSet<String>,
}

impl Disk {
    fn empty() -> Disk {
        let mut directories = BTreeSet::new();
        directories.insert(String::new());
        Disk { directories, files: BTreeMap::new(), locked: BTreeSet::new() }
    }

    fn create_dir_all(&mut self, directory: &str) -> Result<(), String> {
        let mut at = String::new();
        for part in directory.split('/').filter(|part| !part.is_empty()) {
            let parent = at.clone();
            at = format!("{}/{}", parent, part);
            if self.files.contains_key(&at) {
                return Err("Not a directory (os error 20)".to_string());
            }
            if !self.directories.contains(&at) {
                if self.locked.contains(&parent) {
                    return Err("Permission denied (os error 13)".to_string());
                }
                self.directories.insert(at.clone());
            }
        }
        Ok(())
    }

    fn write(&mut self, path: &str, data: &[u8]) -> Result<(), String> {
        let parent = match path.rfind('/') {
            Some(cut) => &path[..cut],
            None => "",
        };
        if !self.directories.contains(parent) {
            return Err("No such file or directory (os error 2)".to_string());
        }
        if self.directories.contains(path) {
            return Err("Is a directory (os error 21)".to_string());
        }
        if self.locked.contains(parent) {
            return Err("Permission denied (os error 13)".to_string());
        }
        self.files.insert(path.to_string(), data.to_vec());
        Ok(())
    }

    fn read(&self, path: &str) -> Option<Vec<u8>> {
        self.files.get(path).cloned()
    }
}

/// One save against the disk: the library decides, this function does the work.
fn save(disk: &mut Disk, directory: &str, file_name: &str, data: &[u8]) -> Result<String, String> {
    let request = SaveRequest::new(directory.to_string(), file_name.to_string(), data.to_vec());
    let creation = disk.create_dir_all(&request.directory);
    let order = match request.after_directory_creation(creation) {
        Ok(order) => order,
        Err(error) => return reply(Err(error)),
    };
    let write = disk.write(&order.path, &order.data);
    reply(order.after_file_write(write))
}

#[test]
fn missing_directories_are_created_and_the_file_written() {
    let mut disk = Disk::empty();
    let path = save(&mut disk, "/srv/images/2024/cats", "cat.png", &[1, 2, 3]).unwrap();
    assert_eq!(path, "/srv/images/2024/cats/cat.png");
    for directory in ["/srv", "/srv/images", "/srv/images/2024", "/srv/images/2024/cats"] {
        assert!(disk.directories.contains(directory));
    }
    assert_eq!(disk.read(&path), Some(vec![1, 2, 3]));
    assert_eq!(disk.files.len(), 1);
}

#[test]
fn existing_directory_is_no_failure_and_the_file_is_replaced() {
    let mut disk = Disk::empty();
    disk.create_dir_all("/srv/images").unwrap();
    disk.write("/srv/images/cat.png", b"what was there before").unwrap();
    let path = save(&mut disk, "/srv/images", "cat.png", b"new").unwrap();
    assert_eq!(path, "/srv/images/cat.png");
    assert_eq!(disk.read(&path), Some(b"new".to_vec()));
    assert_eq!(disk.files.len(), 1);
}

#[test]
fn locked_directory_fails_the_creation_and_leaves_no_file() {
    let mut disk = Disk::empty();
    disk.create_dir_all("/srv").unwrap();
    disk.locked.insert("/srv".to_string());
    let reply = save(&mut disk, "/srv/images", "cat.png", &[1, 2, 3]);
    assert_eq!(
        reply,
        Err("Failed to create directory: Permission denied (os error 13)".to_string())
    );
    assert!(disk.files.is_empty());
    assert!(!disk.directories.contains("/srv/images"));
}

#[test]
fn locked_directory_fails_the_write_and_leaves_no_file() {
    let mut disk = Disk::empty();
    disk.create_dir_all("/srv/images").unwrap();
    disk.locked.insert("/srv/images".to_string());
    let reply = save(&mut disk, "/srv/images", "cat.png", &[1, 2, 3]);
    assert_eq!(reply, Err("Failed to write file: Permission denied (os error 13)".to_string()));
    assert!(disk.files.is_empty());
}

#[test]
fn file_in_the_way_of_the_directory_fails_the_creation() {
    let mut disk = Disk::empty();
    disk.create_dir_all("/srv").unwrap();
    disk.write("/srv/images", b"a file, where a directory is asked for").unwrap();
    let reply = save(&mut disk, "/srv/images/cats", "cat.png", &[1, 2, 3]);
    assert_eq!(reply, Err("Failed to create directory: Not a directory (os error 20)".to_string()));
    assert_eq!(disk.files.len(), 1);
    assert_eq!(disk.read("/srv/images"), Some(b"a file, where a directory is asked for".to_vec()));
}

#[test]
fn directory_in_the_way_of_the_file_fails_the_write() {
    let mut disk = Disk::empty();
    disk.create_dir_all("/srv/images/cat.png").unwrap();
    let reply = save(&mut disk, "/srv/images", "cat.png", &[1, 2, 3]);
    assert_eq!(reply, Err("Failed to write file: Is a directory (os error 21)".to_string()));
    assert!(disk.files.is_empty());
}

#[test]
fn bytes_read_back_are_the_bytes_saved() {
    let mut disk = Disk::empty();
    let every_byte: Vec<u8> = (0..=255).collect();
    let path = save(&mut disk, "/srv/images", "all.bin", &every_byte).unwrap();
    assert_eq!(disk.read(&path), Some(every_byte));
}

#[test]
fn no_bytes_saved_are_no_bytes_read_back() {
    let mut disk = Disk::empty();
    let path = save(&mut disk, "/srv/images", "empty.bin", &[]).unwrap();
    assert_eq!(disk.read(&path), Some(Vec::new()));
}

#[test]
fn second_save_replaces_the_first() {
    let mut disk = Disk::empty();
    let first = save(&mut disk, "/srv/images", "cat.png", b"the first and longer content").unwrap();
    let second = save(&mut disk, "/srv/images", "cat.png", b"second").unwrap();
    assert_eq!(first, second);
    assert_eq!(disk.read(&second), Some(b"second".to_vec()));
    assert_eq!(disk.files.len(), 1);
}

#[test]
fn file_name_with_parent_segments_is_written_as_it_is_joined() {
    let mut disk = Disk::empty();
    disk.create_dir_all("/srv/images/..").unwrap();
    let path = save(&mut disk, "/srv/images", "../cat.png", &[7]).unwrap();
    assert_eq!(path, "/srv/images/../cat.png");
    assert_eq!(disk.read("/srv/images/../cat.png"), Some(vec![7]));
}
