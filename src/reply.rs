use vstd::prelude::*;
use crate::state::{State, state_name, state_color};

verus! {

/// The outcome of a request, as the HTTP layer reports it.
#[derive(Clone, Copy, Debug, PartialEq, Eq, Structural)]
pub enum Status {
    Success,
    Unauthorized,
}

impl Status {
    /// The HTTP status code.
    pub fn code(&self) -> (r: u16)
        ensures
            *self == Status::Success ==> r == 200,
            *self == Status::Unauthorized ==> r == 401,
    {
        match self {
            Status::Success => 200,
            Status::Unauthorized => 401,
        }
    }
}

/// How a reply's body is to be read.
#[derive(Clone, Copy, Debug, PartialEq, Eq, Structural)]
pub enum ContentKind {
    Html,
    PlainText,
}

/// A response: its status, the kind of its body, and the body.
pub struct Reply {
    pub status: Status,
    pub content: ContentKind,
    pub body: String,
}

pub const STATUS_PAGE_HEAD: &'static str = "<html>
            <head>
                <title>Application State</title>
                <style>
                    body {
                        font-family: 'Arial', sans-serif;
                        color: white;
                        background-color: ";

pub const STATUS_PAGE_MIDDLE: &'static str = ";
                        padding: 20px;
                        text-align: center;
                    }
                    h1 {
                        font-size: 2em;
                    }
                </style>
            </head>
            <body>
                <h1>Current State: ";

pub const STATUS_PAGE_TAIL: &'static str = "</h1>
            </body>
        </html>";

pub const SET_STATE_FORM_PAGE: &'static str = "
        <html>
            <head><title>Set State</title></head>
            <body>
                <h1>Set State</h1>
                <form action='/set_state' method='post'>
                    <label for='state'>State:</label>
                    <select id='state' name='state'>
                        <option value='Active'>Active</option>
                        <option value='Inactive'>Inactive</option>
                    </select>
                    <label for='password'>Password:</label>
                    <input type='password' id='password' name='password' required>
                    <input type='submit' value='Set State'>
                </form>
            </body>
        </html>";

pub const UPDATED_PAGE_HEAD: &'static str = "<html><body><h1>State updated to ";

pub const UPDATED_PAGE_TAIL: &'static str = "</h1></body></html>";

pub const UNAUTHORIZED_PAGE: &'static str = "<html><body><h1>Unauthorized</h1></body></html>";

pub const UPDATED_TEXT_HEAD: &'static str = "State updated to ";

pub const UNAUTHORIZED_TEXT: &'static str = "Unauthorized";

pub const LOGGED_IN_TEXT: &'static str = "Logged in";

pub const LOGIN_REFUSED_TEXT: &'static str = "Incorrect username or password";

/// The status page: its background colour and heading follow the state.
pub open spec fn status_page(s: State) -> Seq<char> {
    STATUS_PAGE_HEAD@ + state_color(s) + STATUS_PAGE_MIDDLE@ + state_name(s) + STATUS_PAGE_TAIL@
}

/// The page that confirms a change made through the form.
pub open spec fn updated_page(s: State) -> Seq<char> {
    UPDATED_PAGE_HEAD@ + state_name(s) + UPDATED_PAGE_TAIL@
}

/// The plain-text confirmation of a change made by a logged-in session.
pub open spec fn updated_text(s: State) -> Seq<char> {
    UPDATED_TEXT_HEAD@ + state_name(s)
}

/// Renders the status page for a state.
pub fn render_status_page(s: State) -> (r: String)
    ensures
        r@ == status_page(s),
{
    let mut page = String::from_str(STATUS_PAGE_HEAD);
    let color = s.color();
    page.append(color.as_str());
    page.append(STATUS_PAGE_MIDDLE);
    let name = s.name();
    page.append(name.as_str());
    page.append(STATUS_PAGE_TAIL);
    page
}

/// Renders the page that confirms a change made through the form.
pub fn render_updated_page(s: State) -> (r: String)
    ensures
        r@ == updated_page(s),
{
    let mut page = String::from_str(UPDATED_PAGE_HEAD);
    let name = s.name();
    page.append(name.as_str());
    page.append(UPDATED_PAGE_TAIL);
    page
}

/// Renders the plain-text confirmation of a change by a logged-in session.
pub fn render_updated_text(s: State) -> (r: String)
    ensures
        r@ == updated_text(s),
{
    let mut text = String::from_str(UPDATED_TEXT_HEAD);
    let name = s.name();
    text.append(name.as_str());
    text
}

} // verus!
