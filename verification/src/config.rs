//! The credentials of the providers, read once and handed to every request.

use crate::cloudinary::{CloudinaryConfig, CloudinaryConfigView};
use vstd::prelude::*;
use vstd::string::*;

verus! {

/// The credentials of all providers.
#[derive(Clone, Debug, PartialEq, Eq)]
pub struct Config {
    /// The key for the places provider.
    pub google_api_key: String,
    /// The key for the business directory.
    pub yelp_api_key: String,
    /// The key for the record store.
    pub notion_api_key: String,
    /// The database of the record store that records go into.
    pub notion_database_id: String,
    /// The account at the image host.
    pub cloudinary: CloudinaryConfig,
}

/// The mathematical value of a [`Config`].
pub ghost struct ConfigView {
    pub google_api_key: Seq<char>,
    pub yelp_api_key: Seq<char>,
    pub notion_api_key: Seq<char>,
    pub notion_database_id: Seq<char>,
    pub cloudinary: CloudinaryConfigView,
}

impl View for Config {
    type V = ConfigView;

    open spec fn view(&self) -> ConfigView {
        ConfigView {
            google_api_key: self.google_api_key@,
            yelp_api_key: self.yelp_api_key@,
            notion_api_key: self.notion_api_key@,
            notion_database_id: self.notion_database_id@,
            cloudinary: self.cloudinary@,
        }
    }
}

} // verus!
