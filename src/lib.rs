//! Models and verified logic for fetching game metadata: retrying downloads with
//! mirror fallback and checksum verification, and merging partial records into
//! complete ones.
use vstd::prelude::*;

pub mod artifact;
pub mod fetch;
pub mod keyed;
pub mod minecraft;
pub mod modded;

pub use artifact::get_path_from_artifact;
pub use fetch::{get_hash, verify, AttemptOutcome, Download};

verus! {

/// Relies on reqwest's error type only to carry a transport failure to the caller.
#[verifier::external_type_specification]
#[verifier::external_body]
pub struct ExReqwestError(reqwest::Error);

/// Relies on serde_json's error type only to carry a parse failure to the caller.
#[verifier::external_type_specification]
#[verifier::external_body]
pub struct ExSerdeJsonError(serde_json::Error);

/// Relies on tokio's join error only to carry a failed background task to the caller.
#[verifier::external_type_specification]
#[verifier::external_body]
pub struct ExJoinError(tokio::task::JoinError);

/// The version of this library, announced in the default user agent.
pub const LIBRARY_VERSION: &'static str = "0.1.0";

/// Errors that can occur while fetching or interpreting metadata.
#[derive(Debug)]
pub enum MetadataError {
    /// A downloaded file did not match its expected checksum on any attempt.
    ChecksumFailure { hash: String, url: String, tries: u32 },
    /// Fetched bytes could not be deserialized.
    SerdeError(serde_json::Error),
    /// A network request, or reading its body, failed on the final attempt.
    FetchError { inner: reqwest::Error, item: String },
    /// A background task failed to run to completion.
    TaskError(tokio::task::JoinError),
    /// Input could not be interpreted, or the request was misconfigured.
    ParseError(String),
    /// The branding had already been set.
    BrandingAlreadySet,
    /// A Java profile name that is not known.
    InvalidMinecraftJavaProfile(String),
}

/// The identification of the application that uses this library.
#[derive(Debug)]
pub struct Branding {
    /// The value of the user agent header
    pub header_value: String,
    /// The placeholder that stands for the game version in templated strings
    pub dummy_replace_string: String,
}

pub open spec fn header_value_of(name: Seq<char>, email: Seq<char>) -> Seq<char> {
    name + "/daedalus/"@ + LIBRARY_VERSION@ + " <"@ + email + ">"@
}

pub open spec fn replace_string_of(name: Seq<char>) -> Seq<char> {
    "${"@ + name + ".gameVersion}"@
}

impl Branding {
    /// Creates a branding from an application name and a contact address.
    pub fn new(name: String, email: String) -> (r: Branding)
        ensures
            r.header_value@ == header_value_of(name@, email@),
            r.dummy_replace_string@ == replace_string_of(name@),
    {
        let header_value = name.clone().concat("/daedalus/").concat(LIBRARY_VERSION).concat(
            " <",
        ).concat(email.as_str()).concat(">");
        let dummy_replace_string = String::from_str("${").concat(name.as_str()).concat(
            ".gameVersion}",
        );
        Branding { header_value, dummy_replace_string }
    }

    /// Stores `branding` in `slot` unless a branding was stored before; the first one stays.
    pub fn set_branding(slot: &mut BrandingSlot, branding: Branding) -> (r: Result<(), MetadataError>)
        ensures
            old(slot).current is None ==> r is Ok && final(slot).current == Some(branding),
            old(slot).current is Some ==> (r matches Err(MetadataError::BrandingAlreadySet)
                && *final(slot) == *old(slot)),
    {
        if slot.current.is_some() {
            Err(MetadataError::BrandingAlreadySet)
        } else {
            slot.current = Some(branding);
            Ok(())
        }
    }
}

impl Default for Branding {
    /// The branding used when the application sets none.
    fn default() -> (r: Branding)
        ensures
            r.header_value@ == header_value_of("unbranded"@, "unbranded"@),
            r.dummy_replace_string@ == replace_string_of("unbranded"@),
    {
        Branding::new(String::from_str("unbranded"), String::from_str("unbranded"))
    }
}

/// A write-once holder for the application's branding.
#[derive(Debug)]
pub struct BrandingSlot {
    pub current: Option<Branding>,
}

impl BrandingSlot {
    /// An empty slot.
    pub fn new() -> (r: BrandingSlot)
        ensures
            r.current is None,
    {
        BrandingSlot { current: None }
    }

    /// The user agent to send: the stored branding's, else the unbranded default.
    pub fn header_value(&self) -> (r: String)
        ensures
            self.current matches Some(b) ==> r@ == b.header_value@,
            self.current is None ==> r@ == header_value_of("unbranded"@, "unbranded"@),
    {
        match &self.current {
            Some(b) => b.header_value.clone(),
            None => Branding::default().header_value,
        }
    }
}

} // verus!
