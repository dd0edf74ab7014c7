//! Channels: the home of a user's content.
use vstd::prelude::*;
use crate::model::{DateString, LocaleString, UrlString};

verus! {

/// A channel: the home of a user's content, stream and page.
#[derive(Debug, Clone)]
pub struct Channel {
    pub id: u64,
    pub name: String,
    pub display_name: String,
    pub game: Option<String>,
    pub status: Option<String>,
    pub mature: Option<bool>,
    pub delay: Option<u32>,
    pub language: LocaleString,
    pub broadcaster_language: Option<LocaleString>,
    pub created_at: DateString,
    pub updated_at: DateString,
    pub logo: Option<UrlString>,
    pub banner: Option<UrlString>,
    pub video_banner: Option<UrlString>,
    pub background: Option<UrlString>,
    pub profile_banner: Option<UrlString>,
    pub profile_banner_background_color: Option<String>,
    pub partner: bool,
    pub url: UrlString,
    pub views: u32,
    pub followers: u32,
}

impl Channel {
    /// The channel's id.
    pub fn id(&self) -> (r: u64)
        ensures
            r == self.id,
    {
        self.id
    }

    /// The channel's name.
    pub fn name(&self) -> (r: &String)
        ensures
            *r == self.name,
    {
        &self.name
    }

    /// The name as displayed.
    pub fn display_name(&self) -> (r: &String)
        ensures
            *r == self.display_name,
    {
        &self.display_name
    }

    /// The game last played, if any.
    pub fn game(&self) -> (r: &Option<String>)
        ensures
            *r == self.game,
    {
        &self.game
    }

    /// The status text, if any.
    pub fn status(&self) -> (r: &Option<String>)
        ensures
            *r == self.status,
    {
        &self.status
    }

    /// Whether the content is for mature audiences, if known.
    pub fn mature(&self) -> (r: Option<bool>)
        ensures
            r == self.mature,
    {
        self.mature
    }

    /// The stream delay in seconds, if any.
    pub fn delay(&self) -> (r: Option<u32>)
        ensures
            r == self.delay,
    {
        self.delay
    }

    /// The channel's language.
    pub fn language(&self) -> (r: &LocaleString)
        ensures
            *r == self.language,
    {
        &self.language
    }

    /// The broadcaster's language, if known.
    pub fn broadcaster_language(&self) -> (r: &Option<LocaleString>)
        ensures
            *r == self.broadcaster_language,
    {
        &self.broadcaster_language
    }

    /// When the channel was created.
    pub fn created_at(&self) -> (r: &DateString)
        ensures
            *r == self.created_at,
    {
        &self.created_at
    }

    /// When the channel was last updated.
    pub fn updated_at(&self) -> (r: &DateString)
        ensures
            *r == self.updated_at,
    {
        &self.updated_at
    }

    /// The logo, if any.
    pub fn logo(&self) -> (r: &Option<UrlString>)
        ensures
            *r == self.logo,
    {
        &self.logo
    }

    /// The banner, if any.
    pub fn banner(&self) -> (r: &Option<UrlString>)
        ensures
            *r == self.banner,
    {
        &self.banner
    }

    /// The banner shown while offline, if any.
    pub fn video_banner(&self) -> (r: &Option<UrlString>)
        ensures
            *r == self.video_banner,
    {
        &self.video_banner
    }

    /// The background image, if any.
    pub fn background(&self) -> (r: &Option<UrlString>)
        ensures
            *r == self.background,
    {
        &self.background
    }

    /// The profile banner, if any.
    pub fn profile_banner(&self) -> (r: &Option<UrlString>)
        ensures
            *r == self.profile_banner,
    {
        &self.profile_banner
    }

    /// The profile banner's background color, if any.
    pub fn profile_banner_background_color(&self) -> (r: &Option<String>)
        ensures
            *r == self.profile_banner_background_color,
    {
        &self.profile_banner_background_color
    }

    /// Whether the channel is a partner.
    pub fn partner(&self) -> (r: bool)
        ensures
            r == self.partner,
    {
        self.partner
    }

    /// The channel's page.
    pub fn url(&self) -> (r: &UrlString)
        ensures
            *r == self.url,
    {
        &self.url
    }

    /// The number of views.
    pub fn views(&self) -> (r: u32)
        ensures
            r == self.views,
    {
        self.views
    }

    /// The number of followers.
    pub fn followers(&self) -> (r: u32)
        ensures
            r == self.followers,
    {
        self.followers
    }


}

} // verus!
