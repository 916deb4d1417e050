//! Applications registered with the service.
use vstd::prelude::*;
use crate::errors::AuthError;
use crate::metadata::domain::Metadata;
use crate::regex::{is_url, match_url};
use crate::secret::domain::Secret;

verus! {

/// Stores applications; implemented by the service's storage layer.
pub trait AppRepository {
    /// The application registered under `url`.
    fn find(url: &str) -> Result<App, AuthError>;

    /// Stores `app`, giving it an id when it has none.
    fn save(app: &mut App) -> Result<(), AuthError>;

    /// Removes `app`.
    fn delete(app: &App) -> Result<(), AuthError>;
}

/// An application: its id, URL, secret and metadata.
#[derive(Debug, PartialEq, Eq, Clone)]
pub struct App {
    pub id: i32,
    pub url: String,
    pub secret: Secret,
    pub meta: Metadata,
}

impl App {
    /// A new, not yet stored, application at `url`; `InvalidFormat` when `url` is not an
    /// `http://` or `https://` URL.
    pub fn new(url: &str, secret: Secret, meta: Metadata) -> (r: Result<App, AuthError>)
        ensures
            r is Ok <==> is_url(url@),
            r is Err ==> r->Err_0 == AuthError::InvalidFormat,
            r matches Ok(app) ==> app.id == 0 && app.url@ == url@ && app.secret == secret
                && app.meta == meta,
    {
        match_url(url)?;
        let app = App { id: 0, url: url.to_owned(), secret: secret, meta: meta };
        Ok(app)
    }
}

} // verus!
