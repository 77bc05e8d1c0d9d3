//! Typed parameters of some endpoints, and the JSON text each is sent as.

#![allow(non_snake_case)]

use vstd::prelude::*;
use crate::text::{bool_text, int_text, nat_text, push_bool_text, push_int_text, push_nat_text};
use crate::crypto::{hash_password, password_hash};

verus! {

/// The value of an option, or `d` when there is none.
pub open spec fn or_else<T>(o: Option<T>, d: T) -> T {
    match o {
        Some(v) => v,
        None => d,
    }
}

fn push_i32(out: &mut String, n: i32)
    ensures
        final(out)@ == old(out)@ + int_text(n as int),
{
    push_int_text(out, n as i64);
}

fn push_u32(out: &mut String, n: u32)
    ensures
        final(out)@ == old(out)@ + nat_text(n as nat),
{
    push_nat_text(out, n as u64);
}

/// An id, with an optional second one that is not sent.
pub struct Identity {
    pub id: i32,
    pub other: Option<i32>,
}

impl Identity {
    /// `{"id":"<id>"}`
    pub open spec fn text(&self) -> Seq<char> {
        "{\"id\":\""@ + int_text(self.id as int) + "\"}"@
    }

    pub fn to_string(&self) -> (s: String)
        ensures
            s@ == self.text(),
    {
        let mut s = "{\"id\":\"".to_owned();
        push_i32(&mut s, self.id);
        s.append("\"}");
        s
    }
}

/// A page number.
pub struct PageIndex {
    pub page: i32,
}

impl PageIndex {
    /// `{"page":"<page>"}`
    pub open spec fn text(&self) -> Seq<char> {
        "{\"page\":\""@ + int_text(self.page as int) + "\"}"@
    }

    pub fn to_string(&self) -> (s: String)
        ensures
            s@ == self.text(),
    {
        let mut s = "{\"page\":\"".to_owned();
        push_i32(&mut s, self.page);
        s.append("\"}");
        s
    }
}

/// A category id.
pub struct CateId {
    pub cateId: i32,
}

impl CateId {
    /// `{"cateId":"<cateId>"}`
    pub open spec fn text(&self) -> Seq<char> {
        "{\"cateId\":\""@ + int_text(self.cateId as int) + "\"}"@
    }

    pub fn to_string(&self) -> (s: String)
        ensures
            s@ == self.text(),
    {
        let mut s = "{\"cateId\":\"".to_owned();
        push_i32(&mut s, self.cateId);
        s.append("\"}");
        s
    }
}

/// A chart and how many of its entries to fetch.
pub struct TopList {
    pub id: String,
    pub n: Option<i32>,
}

impl TopList {
    /// `{"id":"<id>","n":"<n, 10000 by default>"}`
    pub open spec fn text(&self) -> Seq<char> {
        "{\"id\":\""@ + self.id@ + "\",\"n\":\""@ + int_text(or_else(self.n, 10000i32) as int)
            + "\"}"@
    }

    pub fn to_string(&self) -> (s: String)
        ensures
            s@ == self.text(),
    {
        let mut s = "{\"id\":\"".to_owned();
        s.append(self.id.as_str());
        s.append("\",\"n\":\"");
        push_i32(&mut s, self.n.unwrap_or(10000));
        s.append("\"}");
        s
    }
}

/// New songs of an area.
pub struct NewSong {
    pub id: String,
    pub total: Option<bool>,
}

impl NewSong {
    /// `{"areadId":"<id>","total":"<total, true by default>"}`
    pub open spec fn text(&self) -> Seq<char> {
        "{\"areadId\":\""@ + self.id@ + "\",\"total\":\""@ + bool_text(or_else(self.total, true))
            + "\"}"@
    }

    pub fn to_string(&self) -> (s: String)
        ensures
            s@ == self.text(),
    {
        let mut s = "{\"areadId\":\"".to_owned();
        s.append(self.id.as_str());
        s.append("\",\"total\":\"");
        push_bool_text(&mut s, self.total.unwrap_or(true));
        s.append("\"}");
        s
    }
}

/// Songs and the bit rate wanted.
pub struct SongInfo {
    pub id: String,
    pub br: Option<u32>,
}

impl SongInfo {
    /// `{"ids":"[<id>]","br":<br, 999000 by default>}`
    pub open spec fn text(&self) -> Seq<char> {
        "{\"ids\":\"["@ + self.id@ + "]\",\"br\":"@ + nat_text(or_else(self.br, 999000u32) as nat)
            + "}"@
    }

    pub fn to_string(&self) -> (s: String)
        ensures
            s@ == self.text(),
    {
        let mut s = "{\"ids\":\"[".to_owned();
        s.append(self.id.as_str());
        s.append("]\",\"br\":");
        push_u32(&mut s, self.br.unwrap_or(999000));
        s.append("}");
        s
    }
}

/// A page of radio stations.
pub struct DjInfo {
    pub limit: Option<i32>,
    pub offset: Option<i32>,
}

impl DjInfo {
    /// `{"limit":"<limit, 30>","offset":"<offset, 0>"}`
    pub open spec fn text(&self) -> Seq<char> {
        "{\"limit\":\""@ + int_text(or_else(self.limit, 30i32) as int) + "\",\"offset\":\""@
            + int_text(or_else(self.offset, 0i32) as int) + "\"}"@
    }

    pub fn to_string(&self) -> (s: String)
        ensures
            s@ == self.text(),
    {
        let mut s = "{\"limit\":\"".to_owned();
        push_i32(&mut s, self.limit.unwrap_or(30));
        s.append("\",\"offset\":\"");
        push_i32(&mut s, self.offset.unwrap_or(0));
        s.append("\"}");
        s
    }
}

/// A music video and the resolution wanted.
pub struct MvInfo {
    pub id: String,
    pub r: Option<u32>,
}

impl MvInfo {
    /// `{"id":"<id>","r":<r, 1080>}`
    pub open spec fn text(&self) -> Seq<char> {
        "{\"id\":\""@ + self.id@ + "\",\"r\":"@ + nat_text(or_else(self.r, 1080u32) as nat) + "}"@
    }

    pub fn to_string(&self) -> (s: String)
        ensures
            s@ == self.text(),
    {
        let mut s = "{\"id\":\"".to_owned();
        s.append(self.id.as_str());
        s.append("\",\"r\":");
        push_u32(&mut s, self.r.unwrap_or(1080));
        s.append("}");
        s
    }
}

/// The shared text of a page: `{"limit":"..","offset":"..","total":".."}`.
pub open spec fn page_text(limit: u32, offset: u32, total: bool) -> Seq<char> {
    "{\"limit\":\""@ + nat_text(limit as nat) + "\",\"offset\":\""@ + nat_text(offset as nat)
        + "\",\"total\":\""@ + bool_text(total) + "\"}"@
}

fn page_string(limit: u32, offset: u32, total: bool) -> (s: String)
    ensures
        s@ == page_text(limit, offset, total),
{
    let mut s = "{\"limit\":\"".to_owned();
    push_u32(&mut s, limit);
    s.append("\",\"offset\":\"");
    push_u32(&mut s, offset);
    s.append("\",\"total\":\"");
    push_bool_text(&mut s, total);
    s.append("\"}");
    s
}

/// A page of the top music videos.
pub struct TopMvInfo {
    pub limit: Option<u32>,
    pub offset: Option<u32>,
    pub total: Option<bool>,
}

impl TopMvInfo {
    /// A page of 30 from 0, with the total, unless given.
    pub open spec fn text(&self) -> Seq<char> {
        page_text(or_else(self.limit, 30u32), or_else(self.offset, 0u32), or_else(self.total, true))
    }

    pub fn to_string(&self) -> (s: String)
        ensures
            s@ == self.text(),
    {
        page_string(self.limit.unwrap_or(30), self.offset.unwrap_or(0), self.total.unwrap_or(true))
    }
}

/// A page of an artist's albums; the id goes into the address, not the text.
pub struct ArtistAlbum {
    pub id: u32,
    pub limit: Option<u32>,
    pub offset: Option<u32>,
    pub total: Option<bool>,
}

impl ArtistAlbum {
    /// A page of 50 from 0, with the total, unless given.
    pub open spec fn text(&self) -> Seq<char> {
        page_text(or_else(self.limit, 50u32), or_else(self.offset, 0u32), or_else(self.total, true))
    }

    pub fn to_string(&self) -> (s: String)
        ensures
            s@ == self.text(),
    {
        page_string(self.limit.unwrap_or(50), self.offset.unwrap_or(0), self.total.unwrap_or(true))
    }
}

/// A page of the newest albums of an area.
pub struct TopAlbumInfo {
    pub area: Option<String>,
    pub limit: Option<u32>,
    pub offset: Option<u32>,
    pub total: Option<bool>,
}

impl TopAlbumInfo {
    /// `{"area":"<area, ALL>","limit":"<50>","offset":"<0>","total":"<true>"}`
    pub open spec fn text(&self) -> Seq<char> {
        let area = match self.area {
            Some(a) => a@,
            None => "ALL"@,
        };
        "{\"area\":\""@ + area + "\",\"limit\":\""@ + nat_text(or_else(self.limit, 50u32) as nat)
            + "\",\"offset\":\""@ + nat_text(or_else(self.offset, 0u32) as nat)
            + "\",\"total\":\""@ + bool_text(or_else(self.total, true)) + "\"}"@
    }

    pub fn to_string(&self) -> (s: String)
        ensures
            s@ == self.text(),
    {
        let mut s = "{\"area\":\"".to_owned();
        match &self.area {
            Some(a) => s.append(a.as_str()),
            None => s.append("ALL"),
        }
        s.append("\",\"limit\":\"");
        push_u32(&mut s, self.limit.unwrap_or(50));
        s.append("\",\"offset\":\"");
        push_u32(&mut s, self.offset.unwrap_or(0));
        s.append("\",\"total\":\"");
        push_bool_text(&mut s, self.total.unwrap_or(true));
        s.append("\"}");
        s
    }
}

/// A page of comments on a resource; `before` is not sent.
pub struct CommentInfo {
    pub id: String,
    pub limit: Option<u32>,
    pub offset: Option<u32>,
    pub before: Option<u32>,
}

impl CommentInfo {
    /// `{"rid":"<id>","limit":"<20>","offset":"<0>"}`
    pub open spec fn text(&self) -> Seq<char> {
        "{\"rid\":\""@ + self.id@ + "\",\"limit\":\""@ + nat_text(or_else(self.limit, 20u32) as nat)
            + "\",\"offset\":\""@ + nat_text(or_else(self.offset, 0u32) as nat) + "\"}"@
    }

    pub fn to_string(&self) -> (s: String)
        ensures
            s@ == self.text(),
    {
        let mut s = "{\"rid\":\"".to_owned();
        s.append(self.id.as_str());
        s.append("\",\"limit\":\"");
        push_u32(&mut s, self.limit.unwrap_or(20));
        s.append("\",\"offset\":\"");
        push_u32(&mut s, self.offset.unwrap_or(0));
        s.append("\"}");
        s
    }
}

/// A login by e-mail address.
pub struct EmailLoginInfo {
    pub email: String,
    pub password: String,
    pub rememberLogin: Option<bool>,
}

impl EmailLoginInfo {
    /// `{"username":"<email>","password":"<digest>","rememberLogin":"<true>"}`
    pub open spec fn text(&self) -> Seq<char> {
        self.text_with(password_hash(self.password@))
    }

    /// The text with `digest` sent as the password.
    pub open spec fn text_with(&self, digest: Seq<char>) -> Seq<char> {
        "{\"username\":\""@ + self.email@ + "\",\"password\":\""@ + digest
            + "\",\"rememberLogin\":\""@ + bool_text(or_else(self.rememberLogin, true)) + "\"}"@
    }

    /// Writes the text with `digest` sent as the password.
    pub fn text_with_digest(&self, digest: &str) -> (s: String)
        ensures
            s@ == self.text_with(digest@),
    {
        let mut s = "{\"username\":\"".to_owned();
        s.append(self.email.as_str());
        s.append("\",\"password\":\"");
        s.append(digest);
        s.append("\",\"rememberLogin\":\"");
        push_bool_text(&mut s, self.rememberLogin.unwrap_or(true));
        s.append("\"}");
        s
    }

    /// The text, or `None` where the digest could not be computed.
    pub fn to_string(&self) -> (s: Option<String>)
        ensures
            s matches Some(t) ==> t@ == self.text(),
    {
        let digest = match hash_password(self.password.as_str()) {
            Some(d) => d,
            None => return None,
        };
        Some(self.text_with_digest(digest.as_str()))
    }
}

/// A login by phone number; the country code is not sent.
pub struct CellPhoneLoginInfo {
    pub phone: String,
    pub password: String,
    pub countryCode: Option<u16>,
    pub rememberLogin: Option<bool>,
}

impl CellPhoneLoginInfo {
    /// `{"phone":"<phone>","password":"<digest>","rememberLogin":"<true>"}`
    pub open spec fn text(&self) -> Seq<char> {
        self.text_with(password_hash(self.password@))
    }

    /// The text with `digest` sent as the password.
    pub open spec fn text_with(&self, digest: Seq<char>) -> Seq<char> {
        "{\"phone\":\""@ + self.phone@ + "\",\"password\":\""@ + digest
            + "\",\"rememberLogin\":\""@ + bool_text(or_else(self.rememberLogin, true)) + "\"}"@
    }

    /// Writes the text with `digest` sent as the password.
    pub fn text_with_digest(&self, digest: &str) -> (s: String)
        ensures
            s@ == self.text_with(digest@),
    {
        let mut s = "{\"phone\":\"".to_owned();
        s.append(self.phone.as_str());
        s.append("\",\"password\":\"");
        s.append(digest);
        s.append("\",\"rememberLogin\":\"");
        push_bool_text(&mut s, self.rememberLogin.unwrap_or(true));
        s.append("\"}");
        s
    }

    /// The text, or `None` where the digest could not be computed.
    pub fn to_string(&self) -> (s: Option<String>)
        ensures
            s matches Some(t) ==> t@ == self.text(),
    {
        let digest = match hash_password(self.password.as_str()) {
            Some(d) => d,
            None => return None,
        };
        Some(self.text_with_digest(digest.as_str()))
    }
}

/// A search.
pub struct SearchInfo {
    pub keywords: String,
    pub types: Option<u32>,
    pub limit: Option<u32>,
    pub offset: Option<u32>,
}

impl SearchInfo {
    /// `{"s":"<keywords>","type":"<1>","limit":"<30>","offset":"<0>"}`
    pub open spec fn text(&self) -> Seq<char> {
        "{\"s\":\""@ + self.keywords@ + "\",\"type\":\""@ + nat_text(or_else(self.types, 1u32) as nat)
            + "\",\"limit\":\""@ + nat_text(or_else(self.limit, 30u32) as nat)
            + "\",\"offset\":\""@ + nat_text(or_else(self.offset, 0u32) as nat) + "\"}"@
    }

    pub fn to_string(&self) -> (s: String)
        ensures
            s@ == self.text(),
    {
        let mut s = "{\"s\":\"".to_owned();
        s.append(self.keywords.as_str());
        s.append("\",\"type\":\"");
        push_u32(&mut s, self.types.unwrap_or(1));
        s.append("\",\"limit\":\"");
        push_u32(&mut s, self.limit.unwrap_or(30));
        s.append("\",\"offset\":\"");
        push_u32(&mut s, self.offset.unwrap_or(0));
        s.append("\"}");
        s
    }
}

/// An unsigned id.
pub struct Identify {
    pub id: u32,
}

impl Identify {
    /// `{"id":"<id>"}`
    pub open spec fn text(&self) -> Seq<char> {
        "{\"id\":\""@ + nat_text(self.id as nat) + "\"}"@
    }

    pub fn to_string(&self) -> (s: String)
        ensures
            s@ == self.text(),
    {
        let mut s = "{\"id\":\"".to_owned();
        push_u32(&mut s, self.id);
        s.append("\"}");
        s
    }
}

} // verus!
