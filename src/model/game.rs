//! Games: categories of streams and channels.
use vstd::prelude::*;
use crate::links::LinkMap;
use crate::model::image::ImageLinks;
use crate::paging::Paged;

verus! {

/// Games by number of current viewers, most popular first.
#[derive(Debug, Clone)]
pub struct TopGames {
    pub links: LinkMap,
    pub total: u32,
    pub top: Vec<GameInfo>,
}

impl TopGames {
    /// The number of games in all pages.
    pub fn total(&self) -> (r: u32)
        ensures
            r == self.total,
    {
        self.total
    }

    /// The games of this page.
    pub fn top(&self) -> (r: &Vec<GameInfo>)
        ensures
            *r == self.top,
    {
        &self.top
    }

    /// The link of this page.
    pub fn link_self(&self) -> (r: &String)
        requires
            self.links@.contains_key("self"@),
        ensures
            r@ == self.links@["self"@],
    {
        self.links.get_expected_link("self")
    }

    /// The link of the next page.
    pub fn link_next(&self) -> (r: &String)
        requires
            self.links@.contains_key("next"@),
        ensures
            r@ == self.links@["next"@],
    {
        self.links.get_expected_link("next")
    }

}

/// Current numbers of a game.
#[derive(Debug, Clone)]
pub struct GameInfo {
    pub viewers: u32,
    pub channels: u32,
    pub game: Game,
}

impl GameInfo {
    /// The number of viewers.
    pub fn viewers(&self) -> (r: u32)
        ensures
            r == self.viewers,
    {
        self.viewers
    }

    /// The number of channels that stream it.
    pub fn channels(&self) -> (r: u32)
        ensures
            r == self.channels,
    {
        self.channels
    }

    /// The game itself.
    pub fn game(&self) -> (r: &Game)
        ensures
            *r == self.game,
    {
        &self.game
    }


}

/// A game: a category of streams and channels.
#[derive(Debug, Clone)]
pub struct Game {
    pub links: LinkMap,
    pub id: u64,
    pub giantbomb_id: u64,
    pub name: String,
    pub box_image_links: ImageLinks,
    pub logo_image_links: ImageLinks,
}

impl Game {
    /// The game's id.
    pub fn id(&self) -> (r: u64)
        ensures
            r == self.id,
    {
        self.id
    }

    /// The game's id at Giant Bomb.
    pub fn giantbomb_id(&self) -> (r: u64)
        ensures
            r == self.giantbomb_id,
    {
        self.giantbomb_id
    }

    /// The game's name.
    pub fn name(&self) -> (r: &String)
        ensures
            *r == self.name,
    {
        &self.name
    }

    /// The box art.
    pub fn box_image_links(&self) -> (r: &ImageLinks)
        ensures
            *r == self.box_image_links,
    {
        &self.box_image_links
    }

    /// The logo.
    pub fn logo_image_links(&self) -> (r: &ImageLinks)
        ensures
            *r == self.logo_image_links,
    {
        &self.logo_image_links
    }

    /// The links of the game.
    pub fn links(&self) -> (r: &LinkMap)
        ensures
            r@ == self.links@,
    {
        &self.links
    }

}

impl Paged for TopGames {
    open spec fn link_view(&self) -> Map<Seq<char>, Seq<char>> {
        self.links@
    }

    fn links(&self) -> (r: &LinkMap) {
        &self.links
    }
}

} // verus!
