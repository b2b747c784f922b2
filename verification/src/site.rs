//! The static documentation sites: their pages grouped in categories, where
//! each page is published, where its HTML file is written, and the wrapper
//! around rendered HTML.
use vstd::prelude::*;
use vstd::string::*;

verus! {

/// A set of pages published from one folder of the site's content.
pub struct Summary {
    pub source_folder: &'static str,
    pub categories: Vec<Category>,
}

/// A titled group of pages.
pub struct Category {
    pub name: String,
    pub pages: Vec<Page>,
}

/// A page of the site. `markdown_path` is the path of its markdown source,
/// relative to the site's crate.
#[derive(Clone, Copy)]
pub struct Page {
    pub date: &'static str,
    pub title: &'static str,
    pub description: &'static str,
    pub folder: &'static str,
    pub markdown_path: &'static str,
    pub image: Option<&'static str>,
    pub author: Option<&'static str>,
    pub author_image: Option<&'static str>,
}

/// What a page says, as text.
pub struct PageView {
    pub date: Seq<char>,
    pub title: Seq<char>,
    pub description: Seq<char>,
    pub folder: Seq<char>,
    pub markdown_path: Seq<char>,
    pub image: Option<Seq<char>>,
    pub author: Option<Seq<char>>,
    pub author_image: Option<Seq<char>>,
}

pub open spec fn opt_str_view(o: Option<&'static str>) -> Option<Seq<char>> {
    match o {
        Some(s) => Some(s@),
        None => None,
    }
}

pub open spec fn page_view(p: Page) -> PageView {
    PageView {
        date: p.date@,
        title: p.title@,
        description: p.description@,
        folder: p.folder@,
        markdown_path: p.markdown_path@,
        image: opt_str_view(p.image),
        author: opt_str_view(p.author),
        author_image: opt_str_view(p.author_image),
    }
}

/// A category's name and its pages, in order.
pub open spec fn category_view(c: Category) -> (Seq<char>, Seq<PageView>) {
    (c.name@, c.pages@.map_values(|p: Page| page_view(p)))
}

/// A summary's source folder and its categories, in order.
pub open spec fn summary_view(s: Summary) -> (Seq<char>, Seq<(Seq<char>, Seq<PageView>)>) {
    (s.source_folder@, s.categories@.map_values(|c: Category| category_view(c)))
}

impl Page {
    /// The page's public address.
    pub fn permalink(&self) -> (url: String)
        ensures
            url@ == "https://stack-cli.com/"@ + self.folder@,
    {
        String::from_str("https://stack-cli.com/").concat(self.folder)
    }
}

/// `base` with `segment` appended as a path component (`Path::push` on
/// Unix): an absolute segment replaces the path, and a separator is put in
/// between unless the path is empty or already ends with one.
pub open spec fn path_push(base: Seq<char>, segment: Seq<char>) -> Seq<char> {
    if segment.len() > 0 && segment[0] == '/' {
        segment
    } else if base.len() > 0 && base.last() != '/' {
        base + "/"@ + segment
    } else {
        base + segment
    }
}

fn path_push_exec(base: String, segment: &str) -> (p: String)
    ensures
        p@ == path_push(base@, segment@),
{
    let seg = segment;
    let starts_with_slash = if !seg.is_empty() {
        seg.get_char(0) == '/'
    } else {
        false
    };
    if starts_with_slash {
        String::from_str(seg)
    } else {
        let b = base.as_str();
        let ends_with_slash = if !b.is_empty() {
            b.get_char(b.unicode_len() - 1) == '/'
        } else {
            false
        };
        if !b.is_empty() && !ends_with_slash {
            base.concat("/").concat(seg)
        } else {
            base.concat(seg)
        }
    }
}

/// The HTML file of a documentation page: `index.html` in the page's folder
/// under `dist`, the folder joined as a path component.
pub fn docs_page_file(folder: &str) -> (file: String)
    ensures
        file@ == path_push(path_push("dist"@, folder@), "index.html"@),
{
    let dir = path_push_exec(String::from_str("dist"), folder);
    path_push_exec(dir, "index.html")
}

/// The folder under `dist` in which a markdown page is written.
pub fn page_dir(folder: &str) -> (dir: String)
    ensures
        dir@ == "dist/"@ + folder@,
{
    String::from_str("dist/").concat(folder)
}

/// The HTML file of a markdown page.
pub fn page_file(folder: &str) -> (file: String)
    ensures
        file@ == "dist/"@ + folder@ + "/index.html"@,
{
    String::from_str("dist/").concat(folder).concat("/index.html")
}

/// Where a summary's content is copied from.
pub fn content_source(summary: &Summary) -> (dir: String)
    ensures
        dir@ == "content/"@ + summary.source_folder@,
{
    String::from_str("content/").concat(summary.source_folder)
}

/// Where a summary's content is copied to.
pub fn content_destination(summary: &Summary) -> (dir: String)
    ensures
        dir@ == "dist/"@ + summary.source_folder@,
{
    String::from_str("dist/").concat(summary.source_folder)
}

/// The HTML file of the home page.
pub fn home_page_file() -> (file: String)
    ensures
        file@ == "dist/index.html"@,
{
    String::from_str("dist/index.html")
}

/// A rendered page body as a complete HTML document.
pub fn html_document(body: &str) -> (html: String)
    ensures
        html@ == "<!DOCTYPE html><html lang='en'>"@ + body@ + "</html>"@,
{
    String::from_str("<!DOCTYPE html><html lang='en'>").concat(body).concat("</html>")
}

/// The sections of the site that the navigation links to.
#[derive(PartialEq, Eq, Structural, Clone, Copy, Debug)]
pub enum Section {
    /// No section is current.
    Unset,
    Home,
    Enterprise,
    Partners,
    Pricing,
    Blog,
    Docs,
    Contact,
}

/// The CSS class of a navigation item: the given class (empty when none), a
/// space, and `underline` when the item is the current section.
pub fn nav_item_class(class: Option<String>, section: Section, current_section: Section) -> (c:
    String)
    ensures
        c@ == match class {
            Some(k) => k@,
            None => Seq::empty(),
        } + " "@ + if section == current_section {
            "underline"@
        } else {
            Seq::empty()
        },
{
    let added_class = if section == current_section {
        "underline"
    } else {
        ""
    };
    proof {
        reveal_strlit("");
    }
    let class = match class {
        Some(k) => k,
        None => String::new(),
    };
    class.concat(" ").concat(added_class)
}

/// A folder without its trailing slash.
pub open spec fn folder_stem(folder: Seq<char>) -> Seq<char> {
    if folder.len() > 0 && folder.last() == '/' {
        folder.drop_last()
    } else {
        folder
    }
}

/// A page's markdown source lies in the content tree at the page's own
/// folder: `index.md` inside that folder, or a file named after it.
pub open spec fn markdown_in_folder(p: PageView) -> bool {
    ||| p.markdown_path == "content/"@ + folder_stem(p.folder) + "/index.md"@
    ||| p.markdown_path == "content/"@ + folder_stem(p.folder) + ".md"@
}

/// Every page of a summary takes its markdown from its own folder.
pub open spec fn sources_in_folders(s: (Seq<char>, Seq<(Seq<char>, Seq<PageView>)>)) -> bool {
    forall|c: int, j: int|
        0 <= c < s.1.len() && 0 <= j < s.1[c].1.len() ==> markdown_in_folder(#[trigger] s.1[c].1[j])
}

} // verus!
