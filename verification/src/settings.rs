//! User-adjustable settings that steer the engine: where downloads land,
//! whether received archives are unpacked automatically, and the template
//! used to name a bundle of several items.

use vstd::prelude::*;
use crate::text::{chars_of, string_of, trim, trim_spec};

verus! {

/// The settings the engine reads. Directories are plain path strings;
/// loading them from and saving them to disk is the caller's business.
pub struct AppSettings {
    pub download_directory: String,
    pub received_files_directory: String,
    pub auto_extract_tarballs: bool,
    pub default_folder_name_format: String,
}

/// Automatic unpacking of received archives starts switched off.
pub fn default_auto_extract() -> (value: bool)
    ensures
        value == false,
{
    false
}

/// The template used to name a bundle of several items when the user gives
/// none; `#` stands for the number of items.
pub fn default_folder_name_format() -> (value: String)
    ensures
        value@ == "#-files-via-wyrmhole"@,
{
    "#-files-via-wyrmhole".to_owned()
}

/// The relay URL the engine should hand to the transport first: the
/// configured one, trimmed, when it is non-blank; otherwise none, and the
/// transport's stock relay is used.
pub fn preferred_relay(custom: &Option<String>) -> (r: Option<String>)
    ensures
        match custom {
            Option::Some(url) => (trim_spec(url@).len() == 0 ==> r is None) && (trim_spec(
                url@,
            ).len() > 0 ==> (r matches Some(t) && t@ == trim_spec(url@))),
            Option::None => r is None,
        },
{
    match custom {
        Option::None => Option::None,
        Option::Some(url) => {
            let trimmed = trim(chars_of(url.as_str()));
            if trimmed.len() == 0 {
                Option::None
            } else {
                Option::Some(string_of(&trimmed))
            }
        },
    }
}

impl AppSettings {
    /// Fresh settings: the given directories, automatic extraction off,
    /// and the stock bundle-name template.
    pub fn with_defaults(download_directory: String, received_files_directory: String) -> (s:
        AppSettings)
        ensures
            s.download_directory == download_directory,
            s.received_files_directory == received_files_directory,
            s.auto_extract_tarballs == false,
            s.default_folder_name_format@ == "#-files-via-wyrmhole"@,
    {
        AppSettings {
            download_directory,
            received_files_directory,
            auto_extract_tarballs: default_auto_extract(),
            default_folder_name_format: default_folder_name_format(),
        }
    }

    pub fn get_download_directory(&self) -> (dir: &String)
        ensures
            dir == &self.download_directory,
    {
        &self.download_directory
    }

    pub fn get_received_files_directory(&self) -> (dir: &String)
        ensures
            dir == &self.received_files_directory,
    {
        &self.received_files_directory
    }

    pub fn set_download_directory(&mut self, path: String)
        ensures
            *final(self) == (AppSettings { download_directory: path, ..*old(self) }),
    {
        self.download_directory = path;
    }

    pub fn set_received_files_directory(&mut self, path: String)
        ensures
            *final(self) == (AppSettings { received_files_directory: path, ..*old(self) }),
    {
        self.received_files_directory = path;
    }

    pub fn get_auto_extract_tarballs(&self) -> (value: bool)
        ensures
            value == self.auto_extract_tarballs,
    {
        self.auto_extract_tarballs
    }

    pub fn set_auto_extract_tarballs(&mut self, value: bool)
        ensures
            *final(self) == (AppSettings { auto_extract_tarballs: value, ..*old(self) }),
    {
        self.auto_extract_tarballs = value;
    }

    pub fn get_default_folder_name_format(&self) -> (format: &String)
        ensures
            format == &self.default_folder_name_format,
    {
        &self.default_folder_name_format
    }

    pub fn set_default_folder_name_format(&mut self, value: String)
        ensures
            *final(self) == (AppSettings { default_folder_name_format: value, ..*old(self) }),
    {
        self.default_folder_name_format = value;
    }
}

} // verus!
