//! Documents: which sections of a document a reader may see, and what the
//! document service does with a request.

use vstd::prelude::*;
use crate::text::{
    append_chars, blank, chars_of, contains_text, is_blank, join, joined, lines_of, occurs_in,
    replace_all, replaced, split_lines, strip_prefix, texts_of, without_prefix,
};
use crate::user::{
    get_jwt_perms, token_privileges, HandlerResponse, BASIC_PRIVILEGES,
    STATUS_INTERNAL_SERVER_ERROR, STATUS_OK,
};

verus! {

/// What is shown in place of a document of which the reader may see nothing.
pub open spec fn nothing_visible() -> Seq<char> {
    "Page requires higher privileges, try logging in."@
}

/// The HTML that `comrak::markdown_to_html` renders for `markdown` under
/// the default options.
pub uninterp spec fn markdown_html(markdown: Seq<char>) -> Seq<char>;

/// Calls `comrak::markdown_to_html` with `comrak::Options::default()`. The
/// contract only names the result: rendering is a function of the text.
#[verifier::external_body]
fn render_markdown(markdown: &str) -> (html: String)
    ensures
        html@ == markdown_html(markdown@),
{
    comrak::markdown_to_html(markdown, &comrak::Options::default())
}

/// Whether a line is a privilege marker: it begins with `!`.
pub open spec fn is_marker(line: Seq<char>) -> bool {
    line.len() > 0 && line[0] == '!'
}

/// The privilege that a marker asks for: the digit that follows the `!`,
/// or 1 where no digit follows.
pub open spec fn required_level(line: Seq<char>) -> i32 {
    if line.len() > 1 && '0' <= line[1] <= '9' {
        (line[1] as u32 - '0' as u32) as i32
    } else {
        1
    }
}

/// Whether a section that asks for `required` is hidden from a reader with
/// `permissions`. The administrator sees everything; everyone else sees
/// what asks for no more than they have.
pub open spec fn hidden(permissions: i32, required: i32) -> bool {
    permissions != 0 && permissions < required
}

/// The sections that are left to collect from `lines[from..]`, given the
/// text gathered so far for the section under way and whether that section
/// is hidden. A marker closes the section under way and opens the next;
/// any other line is added to the section under way, with a line feed. A
/// section is collected when it is closed, unless it is hidden or empty.
pub open spec fn sections_from(
    lines: Seq<Seq<char>>,
    from: int,
    gathered: Seq<char>,
    skip: bool,
    permissions: i32,
) -> Seq<Seq<char>>
    decreases lines.len() - from,
{
    let closed = if gathered.len() > 0 && !skip {
        seq![gathered]
    } else {
        Seq::empty()
    };
    if from < 0 || from >= lines.len() {
        closed
    } else if is_marker(lines[from]) {
        closed + sections_from(
            lines,
            from + 1,
            Seq::empty(),
            hidden(permissions, required_level(lines[from])),
            permissions,
        )
    } else {
        sections_from(lines, from + 1, gathered + lines[from] + seq!['\n'], skip, permissions)
    }
}

/// The sections of a document that a reader with `permissions` may see, in
/// the order in which they stand in the document. What stands before the
/// first marker is open to everyone.
pub open spec fn sections_visible(doc: Seq<char>, permissions: i32) -> Seq<Seq<char>> {
    sections_from(lines_of(doc), 0, Seq::empty(), false, permissions)
}

/// The page that is made of rendered sections: the sections with a line
/// feed between every two, or the notice that nothing is visible where that
/// comes to nothing but white space.
pub open spec fn page_of(rendered: Seq<Seq<char>>) -> Seq<char> {
    let page = joined(rendered, seq!['\n']);
    if blank(page) {
        nothing_visible()
    } else {
        page
    }
}

/// The rendering of every section.
pub open spec fn rendered_sections(sections: Seq<Seq<char>>) -> Seq<Seq<char>> {
    sections.map_values(|section: Seq<char>| markdown_html(section))
}

/// The privilege that the marker `line` asks for.
pub fn marker_level(line: &Vec<char>) -> (level: i32)
    ensures
        level == required_level(line@),
{
    if line.len() > 1 {
        let c = line[1];
        if '0' <= c && c <= '9' {
            return (c as u32 - '0' as u32) as i32;
        }
    }
    1
}

/// Splits a document into the sections that a reader with `permissions`
/// may see.
pub fn visible_sections(doc: &str, permissions: i32) -> (sections: Vec<String>)
    ensures
        texts_of(sections@) == sections_visible(doc@, permissions),
{
    let lines = split_lines(doc);
    let ghost all = texts_of(lines@);
    let mut sections: Vec<String> = Vec::new();
    let mut current = String::new();
    let mut skip = false;
    let mut i: usize = 0;
    while i < lines.len()
        invariant
            i <= lines@.len(),
            all == texts_of(lines@),
            sections_from(all, 0, Seq::empty(), false, permissions) == texts_of(sections@)
                + sections_from(all, i as int, current@, skip, permissions),
        decreases lines@.len() - i,
    {
        let line = chars_of(lines[i].as_str());
        if line.len() > 0 && line[0] == '!' {
            if !current.as_str().is_empty() && !skip {
                sections.push(current);
            }
            current = String::new();
            skip = permissions != 0 && permissions < marker_level(&line);
        } else {
            append_chars(&mut current, &line, 0, line.len());
            current.append("\n");
            proof {
                reveal_strlit("\n");
                assert(line@.subrange(0, line@.len() as int) =~= line@);
                assert("\n"@ =~= seq!['\n']);
            }
        }
        i += 1;
    }
    if !current.as_str().is_empty() && !skip {
        sections.push(current);
    }
    sections
}

/// Renders every section.
pub fn render_sections(sections: &Vec<String>) -> (rendered: Vec<String>)
    ensures
        texts_of(rendered@) == rendered_sections(texts_of(sections@)),
{
    let mut rendered: Vec<String> = Vec::new();
    let mut i: usize = 0;
    while i < sections.len()
        invariant
            i <= sections@.len(),
            texts_of(rendered@) == rendered_sections(texts_of(sections@).take(i as int)),
        decreases sections@.len() - i,
    {
        let ghost before = texts_of(rendered@);
        let html = render_markdown(sections[i].as_str());
        rendered.push(html);
        assert(texts_of(rendered@) =~= before.push(html@));
        i += 1;
    }
    rendered
}

/// Puts rendered sections together into the page that the reader is sent:
/// the sections with a line feed between every two, or, where that comes to
/// nothing but white space, the notice that the page asks for more than the
/// reader has.
pub fn assemble_page(rendered: &Vec<String>) -> (page: String)
    ensures
        page@ == page_of(texts_of(rendered@)),
{
    let page = join(rendered, "\n");
    proof {
        reveal_strlit("\n");
        assert("\n"@ =~= seq!['\n']);
    }
    if is_blank(page.as_str()) {
        "Page requires higher privileges, try logging in.".to_owned()
    } else {
        page
    }
}

/// Renders the sections of `doc` that a reader with `permissions` may see.
pub fn parse_markdown(doc: &str, permissions: i32) -> (page: String)
    ensures
        page@ == page_of(rendered_sections(sections_visible(doc@, permissions))),
{
    let sections = visible_sections(doc, permissions);
    let rendered = render_sections(&sections);
    assemble_page(&rendered)
}

/// Status of the response for a document that does not exist.
pub const STATUS_NOT_FOUND: u16 = 404;

/// The JSON string literal that `serde_json::to_string` writes for `text`;
/// `None` where it writes none.
pub uninterp spec fn json_string(text: Seq<char>) -> Option<Seq<char>>;

/// Calls `serde_json::to_string` on a string. The contract only names the
/// result.
#[verifier::external_body]
fn to_json_string(text: &str) -> (r: Result<String, serde_json::Error>)
    ensures
        match r {
            Ok(json) => json_string(text@) == Some(json@),
            Err(_) => json_string(text@) is None,
        },
{
    serde_json::to_string(text)
}

/// The token in an `Authorization` header: what follows `Bearer `, or
/// nothing where the header does not begin so.
pub open spec fn bearer_of(authorization: Seq<char>) -> Seq<char> {
    match without_prefix(authorization, "Bearer "@) {
        Some(token) => token,
        None => Seq::empty(),
    }
}

/// Takes the token out of an `Authorization` header.
pub fn bearer_token(authorization: &str) -> (token: String)
    ensures
        token@ == bearer_of(authorization@),
{
    match strip_prefix(authorization, "Bearer ") {
        Some(token) => token,
        None => String::new(),
    }
}

/// The privilege with which the sender of an `Authorization` header reads:
/// what the token in it stands for, or the basic privilege where the token
/// stands for nothing or is refused. A reader is never given more than the
/// basic privilege unless the signed claims of the token carry it.
pub fn reader_permissions(authorization: &str, secret: &[u8]) -> (permissions: i32)
    ensures
        bearer_of(authorization@) == "guest"@ ==> permissions == BASIC_PRIVILEGES,
        permissions == BASIC_PRIVILEGES || token_privileges(bearer_of(authorization@), secret@)
            == Some(permissions),
        token_privileges(bearer_of(authorization@), secret@) is None ==> permissions
            == BASIC_PRIVILEGES,
{
    let token = bearer_token(authorization);
    match get_jwt_perms(token.as_str(), secret) {
        Some(p) => p,
        None => BASIC_PRIVILEGES,
    }
}

/// The characters of an optional string slice.
pub open spec fn slice_text(s: Option<&str>) -> Option<Seq<char>> {
    match s {
        Some(t) => Some(t@),
        None => None,
    }
}

/// Whether a query asks for the editor: it holds the word `edit`.
pub open spec fn edit_asked(query: Option<Seq<char>>) -> bool {
    match query {
        Some(q) => occurs_in(q, "edit"@),
        None => false,
    }
}

/// Whether a query asks for the editor.
pub fn wants_edit(query: Option<&str>) -> (edit: bool)
    ensures
        edit == edit_asked(slice_text(query)),
{
    match query {
        Some(q) => contains_text(q, "edit"),
        None => false,
    }
}

/// Where the login is to send the reader back to: the path, and the query
/// behind a question mark where there is one.
pub open spec fn redirect_of(uri_path: Seq<char>, query: Option<Seq<char>>) -> Seq<char> {
    match query {
        Some(q) => uri_path + "?"@ + q,
        None => uri_path,
    }
}

/// Where the login is to send the reader back to.
pub fn redirect_target(uri_path: &str, query: Option<&str>) -> (target: String)
    ensures
        target@ == redirect_of(uri_path@, slice_text(query)),
{
    let mut target = uri_path.to_owned();
    match query {
        Some(q) => {
            target.append("?");
            target.append(q);
        },
        None => {},
    }
    target
}

/// The script of the bootstrap page. It looks for a stored token and asks
/// for the document again with it, and forwards to the login where it
/// finds none or the request fails. `__REDIRECT_TARGET__` stands for the
/// place the reader asked for.
pub const BOOTSTRAP_SCRIPT: &'static str = r#"(function () {
  const target = __REDIRECT_TARGET__;

  function redirectToLogin() {
    window.location.href = '/login.html?redirect=' + encodeURIComponent('/docs' + target);
  }

  const token = window.localStorage.getItem('token');
  if (!token) {
    redirectToLogin();
    return;
  }

  fetch('/docs' + target, { headers: { Authorization: 'Bearer ' + token } })
    .then(function (response) {
      if (!response.ok) {
        throw new Error('request failed');
      }
      return response.text();
    })
    .then(function (html) {
      document.open();
      document.write(html);
      document.close();
    })
    .catch(redirectToLogin);
})();
"#;

/// The word in the script that stands for the redirect target.
pub open spec fn placeholder() -> Seq<char> {
    "__REDIRECT_TARGET__"@
}

/// What stands before the script in the bootstrap page.
pub open spec fn bootstrap_head() -> Seq<char> {
    "<!doctype html><html><head><meta charset=\"utf-8\"><title>Loading documentation\u{2026}</title></head><body><div id=\"docs-bootstrap\"></div><script>"@
}

/// What stands behind the script in the bootstrap page.
pub open spec fn bootstrap_tail() -> Seq<char> {
    "</script></body></html>"@
}

/// The page for a reader who sent no credentials. Its script looks for a
/// stored token and tries again with it, or forwards to the login; the
/// redirect target is set into the script as a JSON string literal.
pub open spec fn bootstrap_of(script: Seq<char>, target: Seq<char>) -> Option<Seq<char>> {
    match json_string(target) {
        Some(literal) => Some(
            bootstrap_head() + replaced(script, placeholder(), literal) + bootstrap_tail(),
        ),
        None => None,
    }
}

/// Builds the page for a reader who sent no credentials from the script
/// template and the redirect target.
pub fn bootstrap_page(script: &str, target: &str) -> (page: Option<String>)
    ensures
        match page {
            Some(p) => bootstrap_of(script@, target@) == Some(p@),
            None => bootstrap_of(script@, target@) is None,
        },
{
    let literal = match to_json_string(target) {
        Ok(literal) => literal,
        Err(_) => {
            return None;
        },
    };
    let filled = replace_all(script, "__REDIRECT_TARGET__", literal.as_str());
    let mut page =
        "<!doctype html><html><head><meta charset=\"utf-8\"><title>Loading documentation\u{2026}</title></head><body><div id=\"docs-bootstrap\"></div><script>".to_owned();
    page.append(filled.as_str());
    page.append("</script></body></html>");
    Some(page)
}

/// What stands before the path in the editor page.
pub open spec fn editor_head() -> Seq<char> {
    "<html><body><form method=\"post\" action=\"/docs"@
}

/// What stands between the path and the source in the editor page.
pub open spec fn editor_middle() -> Seq<char> {
    "?edit\"><textarea name=\"content\" rows=\"20\" cols=\"80\">"@
}

/// What stands behind the source in the editor page.
pub open spec fn editor_tail() -> Seq<char> {
    "</textarea><br><button type=\"submit\">Save</button></form></body></html>"@
}

/// The editor page for the document at `uri_path` with source `contents`.
pub open spec fn editor_of(uri_path: Seq<char>, contents: Seq<char>) -> Seq<char> {
    editor_head() + uri_path + editor_middle() + contents + editor_tail()
}

/// Builds the editor page for the document at `uri_path`.
pub fn edit_page(uri_path: &str, contents: &str) -> (page: String)
    ensures
        page@ == editor_of(uri_path@, contents@),
{
    let mut page = "<html><body><form method=\"post\" action=\"/docs".to_owned();
    page.append(uri_path);
    page.append("?edit\"><textarea name=\"content\" rows=\"20\" cols=\"80\">");
    page.append(contents);
    page.append("</textarea><br><button type=\"submit\">Save</button></form></body></html>");
    page
}

/// The document service: it serves the documents below one directory.
#[derive(Debug)]
pub struct ServeDocs {
    path: String,
}

/// What the service has decided to do with a request, before any file has
/// been read.
#[derive(Debug)]
pub enum DocsPlan {
    /// The request came without credentials: answer with the bootstrap page.
    Bootstrap { redirect_target: String },
    /// Show the source of the document in the editor.
    Edit { doc_path: String, uri_path: String },
    /// Render the document for a reader with `permissions`.
    Render { doc_path: String, permissions: i32 },
}

/// What the service answers once the file has been read.
#[derive(Debug)]
pub enum DocsReply {
    /// A complete response.
    Page(HandlerResponse),
    /// The rendered body of a document. It is to be set into the page frame
    /// and sent with status 200.
    Document { html: String },
}

impl Clone for ServeDocs {
    fn clone(&self) -> (copy: Self)
        ensures
            copy.root() == self.root(),
    {
        ServeDocs { path: self.path.clone() }
    }
}

impl ServeDocs {
    /// The directory below which the documents lie.
    pub closed spec fn root(&self) -> Seq<char> {
        self.path@
    }

    /// The file that holds the document at `uri_path`.
    pub open spec fn file_of(&self, uri_path: Seq<char>) -> Seq<char> {
        self.root() + uri_path + ".md"@
    }

    /// A service for the documents below `path`.
    pub fn new(path: &str) -> (service: ServeDocs)
        ensures
            service.root() == path@,
    {
        ServeDocs { path: path.to_owned() }
    }

    /// The directory below which the documents lie.
    pub fn path(&self) -> (path: &str)
        ensures
            path@ == self.root(),
    {
        self.path.as_str()
    }

    /// The file that holds the document at `uri_path`: the directory, the
    /// path and the extension `.md`, one after the other.
    pub fn doc_path(&self, uri_path: &str) -> (file: String)
        ensures
            file@ == self.file_of(uri_path@),
    {
        let mut file = self.path.clone();
        file.append(uri_path);
        file.append(".md");
        file
    }

    /// Decides what to do with a request, given the privilege that its
    /// `Authorization` header stands for, or `None` where it has no such
    /// header. Without the header the reader gets the bootstrap page. With
    /// it, a query that holds `edit` opens the editor, and any other request
    /// renders the document.
    pub fn plan_for(&self, permissions: Option<i32>, uri_path: &str, query: Option<&str>) -> (plan:
        DocsPlan)
        ensures
            match plan {
                DocsPlan::Bootstrap { redirect_target } => {
                    &&& permissions is None
                    &&& redirect_target@ == redirect_of(uri_path@, slice_text(query))
                },
                DocsPlan::Edit { doc_path, uri_path: path } => {
                    &&& permissions is Some
                    &&& edit_asked(slice_text(query))
                    &&& doc_path@ == self.file_of(uri_path@)
                    &&& path@ == uri_path@
                },
                DocsPlan::Render { doc_path, permissions: granted } => {
                    &&& permissions == Some(granted)
                    &&& !edit_asked(slice_text(query))
                    &&& doc_path@ == self.file_of(uri_path@)
                },
            },
    {
        match permissions {
            None => DocsPlan::Bootstrap { redirect_target: redirect_target(uri_path, query) },
            Some(granted) => {
                if wants_edit(query) {
                    DocsPlan::Edit {
                        doc_path: self.doc_path(uri_path),
                        uri_path: uri_path.to_owned(),
                    }
                } else {
                    DocsPlan::Render { doc_path: self.doc_path(uri_path), permissions: granted }
                }
            },
        }
    }

    /// Decides what to do with a request. The privilege of the reader is
    /// what the token in the `Authorization` header stands for, or the
    /// basic privilege where it stands for nothing or is refused: a token
    /// that is not accepted is read as the basic privilege, never as the
    /// administrator's and never as a privilege that it only claims.
    pub fn plan(
        &self,
        authorization: Option<&str>,
        uri_path: &str,
        query: Option<&str>,
        secret: &[u8],
    ) -> (plan: DocsPlan)
        ensures
            match plan {
                DocsPlan::Bootstrap { redirect_target } => {
                    &&& authorization is None
                    &&& redirect_target@ == redirect_of(uri_path@, slice_text(query))
                },
                DocsPlan::Edit { doc_path, uri_path: path } => {
                    &&& authorization is Some
                    &&& edit_asked(slice_text(query))
                    &&& doc_path@ == self.file_of(uri_path@)
                    &&& path@ == uri_path@
                },
                DocsPlan::Render { doc_path, permissions } => {
                    &&& authorization is Some
                    &&& !edit_asked(slice_text(query))
                    &&& doc_path@ == self.file_of(uri_path@)
                    &&& bearer_of(authorization->Some_0@) == "guest"@ ==> permissions
                        == BASIC_PRIVILEGES
                    &&& permissions == BASIC_PRIVILEGES || token_privileges(
                        bearer_of(authorization->Some_0@),
                        secret@,
                    ) == Some(permissions)
                    &&& token_privileges(bearer_of(authorization->Some_0@), secret@) is None
                        ==> permissions == BASIC_PRIVILEGES
                },
            },
    {
        let permissions = match authorization {
            Some(header) => Some(reader_permissions(header, secret)),
            None => None,
        };
        self.plan_for(permissions, uri_path, query)
    }
}

/// Carries out a plan once the file it names has been read; `file` is
/// `None` where the file could not be read. The bootstrap page needs no
/// file. The editor shows an unreadable file as empty. A document that
/// cannot be read is not found.
pub fn respond(plan: DocsPlan, file: Option<String>) -> (reply: DocsReply)
    ensures
        match plan {
            DocsPlan::Bootstrap { redirect_target } => match bootstrap_of(
                BOOTSTRAP_SCRIPT@,
                redirect_target@,
            ) {
                Some(page) => reply matches DocsReply::Page(resp) && resp@ == (STATUS_OK, page),
                None => reply matches DocsReply::Page(resp) && resp@ == (
                    STATUS_INTERNAL_SERVER_ERROR,
                    "Failed to build page"@,
                ),
            },
            DocsPlan::Edit { doc_path, uri_path } => reply matches DocsReply::Page(resp) && resp@
                == (
                STATUS_OK,
                editor_of(
                    uri_path@,
                    match file {
                        Some(contents) => contents@,
                        None => Seq::empty(),
                    },
                ),
            ),
            DocsPlan::Render { doc_path, permissions } => match file {
                Some(doc) => reply matches DocsReply::Document { html } && html@ == page_of(
                    rendered_sections(sections_visible(doc@, permissions)),
                ),
                None => reply matches DocsReply::Page(resp) && resp@ == (
                    STATUS_NOT_FOUND,
                    "Not found"@,
                ),
            },
        },
{
    match plan {
        DocsPlan::Bootstrap { redirect_target } => {
            match bootstrap_page(BOOTSTRAP_SCRIPT, redirect_target.as_str()) {
                Some(page) => DocsReply::Page(HandlerResponse { status: STATUS_OK, body: page }),
                None => DocsReply::Page(
                    HandlerResponse {
                        status: STATUS_INTERNAL_SERVER_ERROR,
                        body: "Failed to build page".to_owned(),
                    },
                ),
            }
        },
        DocsPlan::Edit { doc_path, uri_path } => {
            let contents = match file {
                Some(contents) => contents,
                None => String::new(),
            };
            DocsReply::Page(
                HandlerResponse {
                    status: STATUS_OK,
                    body: edit_page(uri_path.as_str(), contents.as_str()),
                },
            )
        },
        DocsPlan::Render { doc_path, permissions } => {
            match file {
                Some(doc) => DocsReply::Document { html: parse_markdown(doc.as_str(), permissions) },
                None => DocsReply::Page(
                    HandlerResponse { status: STATUS_NOT_FOUND, body: "Not found".to_owned() },
                ),
            }
        },
    }
}

} // verus!
