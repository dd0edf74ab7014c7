//! The API root: authentication status and top-level links.
use vstd::prelude::*;
use crate::links::LinkMap;
use crate::model::DateString;

verus! {

/// Basic information about the API and the authentication status.
#[derive(Debug, Clone)]
pub struct BasicInfo {
    pub token: Token,
    pub links: LinkMap,
}

impl BasicInfo {
    /// The authentication token.
    pub fn token(&self) -> (r: &Token)
        ensures
            *r == self.token,
    {
        &self.token
    }

    /// The links to other resources; some are present only for an
    /// authenticated caller.
    pub fn links(&self) -> (r: &LinkMap)
        ensures
            r@ == self.links@,
    {
        &self.links
    }

}

/// An authentication token.
#[derive(Debug, Clone)]
pub struct Token {
    pub valid: bool,
    pub user_name: Option<String>,
    pub authorization: Option<Authorization>,
}

impl Token {
    /// Whether the token is valid.
    pub fn valid(&self) -> (r: bool)
        ensures
            r == self.valid,
    {
        self.valid
    }

    /// The user it belongs to, if any.
    pub fn user_name(&self) -> (r: &Option<String>)
        ensures
            *r == self.user_name,
    {
        &self.user_name
    }

    /// What it authorizes, if anything.
    pub fn authorization(&self) -> (r: &Option<Authorization>)
        ensures
            *r == self.authorization,
    {
        &self.authorization
    }


}

/// What a token authorizes.
#[derive(Debug, Clone)]
pub struct Authorization {
    pub scopes: Vec<String>,
    pub created_at: DateString,
    pub updated_at: DateString,
}

impl Authorization {
    /// The granted scopes.
    pub fn scopes(&self) -> (r: &Vec<String>)
        ensures
            *r == self.scopes,
    {
        &self.scopes
    }

    /// When it was granted.
    pub fn created_at(&self) -> (r: &DateString)
        ensures
            *r == self.created_at,
    {
        &self.created_at
    }

    /// When it was last updated.
    pub fn updated_at(&self) -> (r: &DateString)
        ensures
            *r == self.updated_at,
    {
        &self.updated_at
    }


}

} // verus!
