//! The values that each page of the web front-end is rendered from.
//!
//! A page model only holds what its page shows. Rendering it is left to the
//! front-end; what is answered with the rendered page is said here, as plain
//! values that the front-end hands to its server.
use crate::models;
use vndb::protocol::message::response::results::Vn as TypedVn;
use vstd::prelude::*;
use vstd::string::*;

verus! {

/// A visual novel as the VNDB client returns it; opaque here.
#[verifier::external_type_specification]
#[verifier::external_body]
pub struct ExTypedVn(TypedVn);

/// The frame that every page is set in.
#[derive(Clone, Copy, Debug, PartialEq, Eq)]
pub struct Base {}

/// The status of an answer that shows what was asked for.
pub const STATUS_OK: u16 = 200;

/// The status of an answer to a request for something that is not there.
pub const STATUS_NOT_FOUND: u16 = 404;

/// The status of an answer to a request that failed inside the application.
pub const STATUS_INTERNAL_SERVER_ERROR: u16 = 500;

/// The content type of every page.
pub open spec fn html_content_type() -> Seq<char> {
    "text/html; charset=utf-8"@
}

/// How the body of an answer is to be encoded on its way to the client.
#[derive(Clone, Copy, Debug, PartialEq, Eq, Structural)]
pub enum ContentEncoding {
    /// Let the server pick, by what the client accepts.
    Auto,
    /// Brotli.
    Br,
    /// Deflate.
    Deflate,
    /// Gzip.
    Gzip,
    /// As it is.
    Identity,
}

/// An answer to a request: a status, a content type, the encoding asked of
/// the server and the bytes of a page.
#[derive(Clone, Debug, PartialEq, Eq)]
pub struct PageResponse {
    pub status: u16,
    pub content_type: &'static str,
    pub content_encoding: ContentEncoding,
    pub body: Vec<u8>,
}

/// Answers with a rendered page under the given status: the page's bytes as
/// they are, declared as HTML in UTF-8, the encoding left to the server.
pub fn serve(rendered: &str, status: u16) -> (response: PageResponse)
    ensures
        response.status == status,
        response.content_type@ == html_content_type(),
        response.content_encoding == ContentEncoding::Auto,
        response.body@ == rendered.spec_bytes(),
{
    PageResponse {
        status,
        content_type: "text/html; charset=utf-8",
        content_encoding: ContentEncoding::Auto,
        body: rendered.as_bytes_vec(),
    }
}

/// Answers with a rendered page that shows what was asked for.
pub fn serve_ok(rendered: &str) -> (response: PageResponse)
    ensures
        response.status == STATUS_OK,
        response.content_type@ == html_content_type(),
        response.content_encoding == ContentEncoding::Auto,
        response.body@ == rendered.spec_bytes(),
{
    serve(rendered, STATUS_OK)
}

/// The start page: one form, with the address it posts to and its caption.
pub struct Index {
    _parent: Base,
    action: &'static str,
    caption: &'static str,
}

/// What an [`Index`] page shows.
pub struct IndexView {
    pub action: Seq<char>,
    pub caption: Seq<char>,
}

impl View for Index {
    type V = IndexView;

    closed spec fn view(&self) -> IndexView {
        IndexView { action: self.action@, caption: self.caption@ }
    }
}

impl Index {
    pub fn new(action: &'static str, caption: &'static str) -> (page: Self)
        ensures
            page@ == (IndexView { action: action@, caption: caption@ }),
    {
        Self { _parent: Base {  }, action, caption }
    }

    /// The address the form posts to.
    pub fn action(&self) -> (action: &'static str)
        ensures
            action@ == self@.action,
    {
        self.action
    }

    /// The caption of the form.
    pub fn caption(&self) -> (caption: &'static str)
        ensures
            caption@ == self@.caption,
    {
        self.caption
    }
}

/// The page of one visual novel, with the hooks stored for it.
pub struct Vn<'a> {
    _parent: Base,
    id: u64,
    title: &'a str,
    hooks: Vec<models::Hook>,
}

/// What a [`Vn`] page shows.
pub struct VnView {
    pub id: u64,
    pub title: Seq<char>,
    pub hooks: Seq<models::Hook>,
}

impl<'a> View for Vn<'a> {
    type V = VnView;

    closed spec fn view(&self) -> VnView {
        VnView { id: self.id, title: self.title@, hooks: self.hooks@ }
    }
}

impl<'a> Vn<'a> {
    pub fn new(id: u64, title: &'a str, hooks: Vec<models::Hook>) -> (page: Self)
        ensures
            page@ == (VnView { id, title: title@, hooks: hooks@ }),
    {
        Self { _parent: Base {  }, id, title, hooks }
    }

    /// The id of the visual novel.
    pub fn id(&self) -> (id: u64)
        ensures
            id == self@.id,
    {
        self.id
    }

    /// The title of the visual novel.
    pub fn title(&self) -> (title: &'a str)
        ensures
            title@ == self@.title,
    {
        self.title
    }

    /// The hooks stored for the visual novel, in the order given.
    pub fn hooks(&self) -> (hooks: &Vec<models::Hook>)
        ensures
            hooks@ == self@.hooks,
    {
        &self.hooks
    }
}

/// The page shown where nothing is found.
#[derive(Debug, PartialEq, Eq)]
pub struct NotFound {
    _parent: Base,
}

impl NotFound {
    /// The one value of this page: it shows nothing of its own.
    pub closed spec fn blank() -> Self {
        NotFound { _parent: Base {  } }
    }

    #[inline]
    pub fn new() -> (page: Self)
        ensures
            page == Self::blank(),
    {
        Self { _parent: Base {  } }
    }

    /// The answer that carries this page, once rendered.
    #[inline]
    pub fn response(&self, rendered: &str) -> (response: PageResponse)
        ensures
            response.status == STATUS_NOT_FOUND,
            response.content_type@ == html_content_type(),
            response.content_encoding == ContentEncoding::Auto,
            response.body@ == rendered.spec_bytes(),
    {
        serve(rendered, STATUS_NOT_FOUND)
    }
}

/// The page shown when a request fails inside the application.
pub struct InternalError<S: std::fmt::Display> {
    _parent: Base,
    description: S,
}

impl<S: std::fmt::Display> InternalError<S> {
    /// What went wrong, as given to [`InternalError::new`].
    pub closed spec fn spec_description(&self) -> S {
        self.description
    }

    #[inline]
    pub fn new(description: S) -> (page: Self)
        ensures
            page.spec_description() == description,
    {
        Self { _parent: Base {  }, description }
    }

    /// What went wrong.
    pub fn description(&self) -> (description: &S)
        ensures
            *description == self.spec_description(),
    {
        &self.description
    }

    /// The answer that carries this page, once rendered.
    #[inline]
    pub fn response(&self, rendered: &str) -> (response: PageResponse)
        ensures
            response.status == STATUS_INTERNAL_SERVER_ERROR,
            response.content_type@ == html_content_type(),
            response.content_encoding == ContentEncoding::Auto,
            response.body@ == rendered.spec_bytes(),
    {
        serve(rendered, STATUS_INTERNAL_SERVER_ERROR)
    }
}

/// The page of a search in the local database.
pub struct Search<'a> {
    _parent: Base,
    title: &'a str,
    vns: Vec<models::Vn>,
}

/// What a [`Search`] page shows.
pub struct SearchView {
    pub title: Seq<char>,
    pub vns: Seq<models::Vn>,
}

impl<'a> View for Search<'a> {
    type V = SearchView;

    closed spec fn view(&self) -> SearchView {
        SearchView { title: self.title@, vns: self.vns@ }
    }
}

impl<'a> Search<'a> {
    pub fn new(title: &'a str, vns: Vec<models::Vn>) -> (page: Self)
        ensures
            page@ == (SearchView { title: title@, vns: vns@ }),
    {
        Self { _parent: Base {  }, title, vns }
    }

    /// The title that was searched for.
    pub fn title(&self) -> (title: &'a str)
        ensures
            title@ == self@.title,
    {
        self.title
    }

    /// The visual novels that were found, in the order given.
    pub fn vns(&self) -> (vns: &Vec<models::Vn>)
        ensures
            vns@ == self@.vns,
    {
        &self.vns
    }
}

/// The page of a search on VNDB.
pub struct VndbSearch<'a> {
    _parent: Base,
    title: &'a str,
    vns: &'a Vec<TypedVn>,
}

/// What a [`VndbSearch`] page shows.
pub struct VndbSearchView {
    pub title: Seq<char>,
    pub vns: Seq<TypedVn>,
}

impl<'a> View for VndbSearch<'a> {
    type V = VndbSearchView;

    closed spec fn view(&self) -> VndbSearchView {
        VndbSearchView { title: self.title@, vns: self.vns@ }
    }
}

impl<'a> VndbSearch<'a> {
    pub fn new(title: &'a str, vns: &'a Vec<TypedVn>) -> (page: Self)
        ensures
            page@ == (VndbSearchView { title: title@, vns: vns@ }),
    {
        Self { _parent: Base {  }, title, vns }
    }

    /// The title that was searched for.
    pub fn title(&self) -> (title: &'a str)
        ensures
            title@ == self@.title,
    {
        self.title
    }

    /// The visual novels that VNDB returned, in the order given.
    pub fn vns(&self) -> (vns: &'a Vec<TypedVn>)
        ensures
            vns@ == self@.vns,
    {
        self.vns
    }
}

/// The form that adds a hook to a visual novel. `version` and `code` hold
/// what the form is filled with when it is shown again.
pub struct AddHook<'a> {
    _parent: Base,
    id: u64,
    title: &'a str,
    pub version: Option<&'a str>,
    pub code: Option<&'a str>,
}

/// What an [`AddHook`] page shows.
pub struct AddHookView {
    pub id: u64,
    pub title: Seq<char>,
    pub version: Option<Seq<char>>,
    pub code: Option<Seq<char>>,
}

impl<'a> View for AddHook<'a> {
    type V = AddHookView;

    closed spec fn view(&self) -> AddHookView {
        AddHookView {
            id: self.id,
            title: self.title@,
            version: match self.version {
                Some(version) => Some(version@),
                None => None,
            },
            code: match self.code {
                Some(code) => Some(code@),
                None => None,
            },
        }
    }
}

impl<'a> AddHook<'a> {
    pub fn new(id: u64, title: &'a str) -> (page: Self)
        ensures
            page@ == (AddHookView { id, title: title@, version: None, code: None }),
    {
        Self { _parent: Base {  }, id, title, version: None, code: None }
    }

    /// The id of the visual novel that the hook is added to.
    pub fn id(&self) -> (id: u64)
        ensures
            id == self@.id,
    {
        self.id
    }

    /// The title of the visual novel that the hook is added to.
    pub fn title(&self) -> (title: &'a str)
        ensures
            title@ == self@.title,
    {
        self.title
    }
}

/// The page that tells what the application is.
#[derive(Debug, PartialEq, Eq)]
pub struct About {
    _parent: Base,
}

impl About {
    /// The one value of this page: it shows nothing of its own.
    pub closed spec fn blank() -> Self {
        About { _parent: Base {  } }
    }

    pub fn new() -> (page: Self)
        ensures
            page == Self::blank(),
    {
        Self { _parent: Base {  } }
    }
}

} // verus!
