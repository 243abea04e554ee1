//! The commands as a host runs them, with a map standing in for the disk:
//! a write stores the bytes of the content under the path, replacing what
//! was there; a read hands back the bytes under the path.

use file_commands::commands::{read_file, write_file};
use file_commands::encoding::content_bytes;
use std::collections::HashMap;

struct Disk {
    directories: Vec<String>,
    files: HashMap<String, Vec<u8>>,
}

impl Disk {
    fn with_directory(directory: &str) -> Disk {
        Disk {
            directories: vec![directory.to_string()],
            files: HashMap::new(),
        }
    }

    fn has_directory_of(&self, path: &str) -> bool {
        match path.rfind('/') {
            Some(end) => self.directories.iter().any(|d| d == &path[..end]),
            None => false,
        }
    }

    fn store(&mut self, path: &str, bytes: &[u8]) -> Result<(), String> {
        if !self.has_directory_of(path) {
            return Err("No such file or directory (os error 2)".to_string());
        }
        self.files.insert(path.to_string(), bytes.to_vec());
        Ok(())
    }

    fn load(&self, path: &str) -> Result<Vec<u8>, String> {
        match self.files.get(path) {
            Some(bytes) => Ok(bytes.clone()),
            None => Err("No such file or directory (os error 2)".to_string()),
        }
    }

    fn write(&mut self, path: &str, content: &str) -> Result<(), String> {
        write_file(self.store(path, content_bytes(content)))
    }

    fn read(&self, path: &str) -> Result<String, String> {
        read_file(self.load(path))
    }
}

#[test]
fn write_then_read_scenario() {
    let mut disk = Disk::with_directory("/tmp");
    assert_eq!(disk.write("/tmp/a.txt", "hello"), Ok(()));
    assert_eq!(disk.read("/tmp/a.txt"), Ok("hello".to_string()));
    assert_eq!(disk.write("/tmp/a.txt", "world"), Ok(()));
    assert_eq!(disk.read("/tmp/a.txt"), Ok("world".to_string()));
    assert_ne!(disk.read("/tmp/a.txt"), Ok("worldo".to_string()));
    assert_ne!(disk.read("/tmp/a.txt"), Ok("helloworld".to_string()));
}

#[test]
fn read_of_missing_path_fails() {
    let disk = Disk::with_directory("/tmp");
    assert_eq!(
        disk.read("/tmp/never_written.txt"),
        Err("Failed to read file: No such file or directory (os error 2)".to_string())
    );
}

#[test]
fn round_trip_keeps_content_exactly() {
    let mut disk = Disk::with_directory("/tmp");
    let content = "first line\nzweite Zeile: äöü ß\n第三行 🦀\n\ttrailing space \n";
    assert_eq!(disk.write("/tmp/notes.txt", content), Ok(()));
    assert_eq!(disk.read("/tmp/notes.txt"), Ok(content.to_string()));
    assert_eq!(disk.files["/tmp/notes.txt"], content.as_bytes().to_vec());
}

#[test]
fn round_trip_of_empty_content() {
    let mut disk = Disk::with_directory("/tmp");
    assert_eq!(disk.write("/tmp/empty.txt", ""), Ok(()));
    assert_eq!(disk.read("/tmp/empty.txt"), Ok(String::new()));
}

#[test]
fn shorter_content_replaces_longer() {
    let mut disk = Disk::with_directory("/tmp");
    assert_eq!(disk.write("/tmp/b.txt", "a long first content"), Ok(()));
    assert_eq!(disk.write("/tmp/b.txt", "short"), Ok(()));
    assert_eq!(disk.read("/tmp/b.txt"), Ok("short".to_string()));
}

#[test]
fn write_into_missing_directory_fails() {
    let mut disk = Disk::with_directory("/tmp");
    assert_eq!(
        disk.write("/tmp/missing/out.txt", "content"),
        Err("Failed to write file: No such file or directory (os error 2)".to_string())
    );
    assert!(disk.files.is_empty());
    assert_eq!(
        disk.read("/tmp/missing/out.txt"),
        Err("Failed to read file: No such file or directory (os error 2)".to_string())
    );
}

#[test]
fn read_of_invalid_text_fails() {
    let mut disk = Disk::with_directory("/tmp");
    disk.store("/tmp/raw.bin", &[b'o', b'k', 0xff, 0xfe]).unwrap();
    assert_eq!(
        disk.read("/tmp/raw.bin"),
        Err("Failed to read file: stream did not contain valid UTF-8".to_string())
    );
}
