//! The program configuration: where it is stored, the lyrics-search
//! credential, and the presentation font size.

use vstd::prelude::*;

verus! {

/// The persisted configuration.  The path names the file the surrounding
/// program reads it from and writes it to.
#[derive(Debug)]
pub struct ProgramConfig {
    pub config_path: String,
    pub genius_api_token: Option<String>,
    pub font_size: String,
}

/// A configuration failure: an operation needed a credential that is not set.
#[derive(Debug)]
pub enum ConfigError {
    MissingGeniusToken,
}

impl ConfigError {
    /// The user-facing message for this failure.
    pub fn message(&self) -> (r: String)
        ensures
            r@ == "No Genius API token"@,
    {
        "No Genius API token".to_owned()
    }
}

impl Default for ProgramConfig {
    fn default() -> (r: Self)
        ensures
            r.config_path@ == Seq::<char>::empty(),
            r.genius_api_token is None,
            r.font_size@ == Seq::<char>::empty(),
    {
        Self { config_path: String::new(), genius_api_token: None, font_size: String::new() }
    }
}

impl Clone for ProgramConfig {
    fn clone(&self) -> (r: Self)
        ensures
            r.config_path@ == self.config_path@,
            r.genius_api_token.deep_view() == self.genius_api_token.deep_view(),
            r.font_size@ == self.font_size@,
    {
        let token = match &self.genius_api_token {
            Some(t) => Some(t.clone()),
            None => None,
        };
        Self {
            config_path: self.config_path.clone(),
            genius_api_token: token,
            font_size: self.font_size.clone(),
        }
    }
}

impl ProgramConfig {
    /// The stored search credential, or the empty string when none is set.
    pub fn genius_token_or_empty(&self) -> (r: String)
        ensures
            (match self.genius_api_token {
                Some(t) => r@ == t@,
                None => r@ == Seq::<char>::empty(),
            }),
    {
        match &self.genius_api_token {
            Some(t) => t.clone(),
            None => String::new(),
        }
    }

    /// The stored search credential, or the configuration failure when none
    /// is set: a lookup must not run without it.
    pub fn require_genius_token(&self) -> (r: Result<String, ConfigError>)
        ensures
            (match self.genius_api_token {
                Some(t) => r matches Ok(token) && token@ == t@,
                None => r matches Err(e) && e is MissingGeniusToken,
            }),
    {
        match &self.genius_api_token {
            Some(t) => Ok(t.clone()),
            None => Err(ConfigError::MissingGeniusToken),
        }
    }

    pub fn set_genius_token(&mut self, new_token: String)
        ensures
            final(self).genius_api_token matches Some(t) && t@ == new_token@,
            final(self).config_path@ == old(self).config_path@,
            final(self).font_size@ == old(self).font_size@,
    {
        self.genius_api_token = Some(new_token);
    }

    pub fn set_font_size(&mut self, new_font_size: String)
        ensures
            final(self).font_size@ == new_font_size@,
            final(self).config_path@ == old(self).config_path@,
            final(self).genius_api_token == old(self).genius_api_token,
    {
        self.font_size = new_font_size;
    }

    /// At startup a missing font size falls back to the default.
    pub fn normalize_font_size(&mut self)
        ensures
            old(self).font_size@.len() == 0 ==> final(self).font_size@ == "2.5rem"@,
            old(self).font_size@.len() > 0 ==> final(self).font_size@ == old(self).font_size@,
            final(self).config_path@ == old(self).config_path@,
            final(self).genius_api_token == old(self).genius_api_token,
    {
        if self.font_size.as_str().is_empty() {
            self.font_size = "2.5rem".to_owned();
        }
    }
}

} // verus!
