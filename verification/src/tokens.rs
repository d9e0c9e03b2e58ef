//! Credential data: the token bundle and the session data returned by login.

use vstd::prelude::*;

verus! {

/// Access and refresh credential pair with their expirations (epoch
/// timestamps). A bundle is either entirely present or entirely absent;
/// partial token state is never persisted.
#[derive(Debug, PartialEq, Eq)]
pub struct TokenBundle {
    pub access_token: String,
    pub refresh_token: String,
    pub access_expires_at: i64,
    pub refresh_expires_at: i64,
}

impl Clone for TokenBundle {
    fn clone(&self) -> (r: Self)
        ensures
            r == *self,
    {
        TokenBundle {
            access_token: self.access_token.clone(),
            refresh_token: self.refresh_token.clone(),
            access_expires_at: self.access_expires_at,
            refresh_expires_at: self.refresh_expires_at,
        }
    }
}

/// The signed-in user's profile as the remote API reports it.
#[derive(Debug, PartialEq, Eq)]
pub struct UserDto {
    pub id: String,
    pub email: String,
    pub name: String,
    pub workspace_id: String,
    pub role: String,
}

impl Clone for UserDto {
    fn clone(&self) -> (r: Self)
        ensures
            r == *self,
    {
        UserDto {
            id: self.id.clone(),
            email: self.email.clone(),
            name: self.name.clone(),
            workspace_id: self.workspace_id.clone(),
            role: self.role.clone(),
        }
    }
}

/// What a successful login hands to the frontend: both tokens, their
/// expirations, and the user profile.
#[derive(Debug, PartialEq, Eq)]
pub struct AuthSessionDto {
    pub access_token: String,
    pub refresh_token: String,
    pub access_expires_at: i64,
    pub refresh_expires_at: i64,
    pub user: UserDto,
}

/// Assemble the login result from the persisted bundle and the user profile.
pub fn auth_session(tokens: &TokenBundle, user: UserDto) -> (r: AuthSessionDto)
    ensures
        r.access_token == tokens.access_token,
        r.refresh_token == tokens.refresh_token,
        r.access_expires_at == tokens.access_expires_at,
        r.refresh_expires_at == tokens.refresh_expires_at,
        r.user == user,
{
    AuthSessionDto {
        access_token: tokens.access_token.clone(),
        refresh_token: tokens.refresh_token.clone(),
        access_expires_at: tokens.access_expires_at,
        refresh_expires_at: tokens.refresh_expires_at,
        user,
    }
}

} // verus!
