//! The table of contents of the Stack documentation.
use crate::site::{
    category_view, folder_stem, markdown_in_folder, page_view, sources_in_folders, summary_view, Category,
    Page, PageView, Summary,
};
use vstd::prelude::*;
use vstd::string::*;

verus! {

pub open spec fn category_0_view() -> (Seq<char>, Seq<PageView>) {
    (
        "Setting Up"@,
        seq![
            PageView {
                date: ""@,
                title: "Introduction"@,
                description: "Install Stack and apply your first StackApp"@,
                folder: "docs/"@,
                markdown_path: "content/docs/index.md"@,
                image: None,
                author: None,
                author_image: None,
            },
            PageView {
                date: ""@,
                title: "Stack Architecture"@,
                description: "How the operator, CRDs, and shared services fit together"@,
                folder: "docs/architecture/"@,
                markdown_path: "content/docs/architecture/index.md"@,
                image: None,
                author: None,
                author_image: None,
            },
            PageView {
                date: ""@,
                title: "Keycloak Operator"@,
                description: "What stack init installs and how Keycloak powers OAuth2"@,
                folder: "docs/keycloak-operator/"@,
                markdown_path: "content/docs/keycloak-operator/index.md"@,
                image: None,
                author: None,
                author_image: None,
            },
            PageView {
                date: ""@,
                title: "PostgreSQL Operator"@,
                description: "How CloudNativePG is installed and used per StackApp"@,
                folder: "docs/postgres-operator/"@,
                markdown_path: "content/docs/postgres-operator/index.md"@,
                image: None,
                author: None,
                author_image: None,
            },
        ],
    )
}

fn category_0() -> (c: Category)
    ensures
        category_view(c) == category_0_view(),
{
    let mut pages: Vec<Page> = Vec::new();
    pages.push(
        Page {
            date: "",
            title: "Introduction",
            description: "Install Stack and apply your first StackApp",
            folder: "docs/",
            markdown_path: "content/docs/index.md",
            image: None,
            author: None,
            author_image: None,
        },
    );
    pages.push(
        Page {
            date: "",
            title: "Stack Architecture",
            description: "How the operator, CRDs, and shared services fit together",
            folder: "docs/architecture/",
            markdown_path: "content/docs/architecture/index.md",
            image: None,
            author: None,
            author_image: None,
        },
    );
    pages.push(
        Page {
            date: "",
            title: "Keycloak Operator",
            description: "What stack init installs and how Keycloak powers OAuth2",
            folder: "docs/keycloak-operator/",
            markdown_path: "content/docs/keycloak-operator/index.md",
            image: None,
            author: None,
            author_image: None,
        },
    );
    pages.push(
        Page {
            date: "",
            title: "PostgreSQL Operator",
            description: "How CloudNativePG is installed and used per StackApp",
            folder: "docs/postgres-operator/",
            markdown_path: "content/docs/postgres-operator/index.md",
            image: None,
            author: None,
            author_image: None,
        },
    );
    let c = Category { name: String::from_str("Setting Up"), pages };
    assert(category_view(c).1 =~= category_0_view().1);
    c
}

pub open spec fn category_1_view() -> (Seq<char>, Seq<PageView>) {
    (
        "Connectivity"@,
        seq![
            PageView {
                date: ""@,
                title: "Cloudflare Tunnels"@,
                description: "Expose Stack namespaces via quick or authenticated tunnels"@,
                folder: "docs/cloudflare/"@,
                markdown_path: "content/docs/cloudflare/index.md"@,
                image: None,
                author: None,
                author_image: None,
            },
        ],
    )
}

fn category_1() -> (c: Category)
    ensures
        category_view(c) == category_1_view(),
{
    let mut pages: Vec<Page> = Vec::new();
    pages.push(
        Page {
            date: "",
            title: "Cloudflare Tunnels",
            description: "Expose Stack namespaces via quick or authenticated tunnels",
            folder: "docs/cloudflare/",
            markdown_path: "content/docs/cloudflare/index.md",
            image: None,
            author: None,
            author_image: None,
        },
    );
    let c = Category { name: String::from_str("Connectivity"), pages };
    assert(category_view(c).1 =~= category_1_view().1);
    c
}

pub open spec fn category_2_view() -> (Seq<char>, Seq<PageView>) {
    (
        "Frameworks"@,
        seq![
            PageView {
                date: ""@,
                title: "Rails on Kubernetes"@,
                description: "Containerise a Rails app and ship it with Stack"@,
                folder: "docs/framework/"@,
                markdown_path: "content/docs/framework/index.md"@,
                image: None,
                author: None,
                author_image: None,
            },
            PageView {
                date: ""@,
                title: "Flask on Kubernetes"@,
                description: "Build a Python/Flask container and deploy it with Stack"@,
                folder: "docs/framework/flask/"@,
                markdown_path: "content/docs/framework/flask.md"@,
                image: None,
                author: None,
                author_image: None,
            },
        ],
    )
}

fn category_2() -> (c: Category)
    ensures
        category_view(c) == category_2_view(),
{
    let mut pages: Vec<Page> = Vec::new();
    pages.push(
        Page {
            date: "",
            title: "Rails on Kubernetes",
            description: "Containerise a Rails app and ship it with Stack",
            folder: "docs/framework/",
            markdown_path: "content/docs/framework/index.md",
            image: None,
            author: None,
            author_image: None,
        },
    );
    pages.push(
        Page {
            date: "",
            title: "Flask on Kubernetes",
            description: "Build a Python/Flask container and deploy it with Stack",
            folder: "docs/framework/flask/",
            markdown_path: "content/docs/framework/flask.md",
            image: None,
            author: None,
            author_image: None,
        },
    );
    let c = Category { name: String::from_str("Frameworks"), pages };
    assert(category_view(c).1 =~= category_2_view().1);
    c
}

/// The categories and pages of the summary.
pub open spec fn summary_spec() -> (Seq<char>, Seq<(Seq<char>, Seq<PageView>)>) {
    ("docs"@, seq![category_0_view(), category_1_view(), category_2_view()])
}

/// The summary of the Stack documentation, published from `docs`.
pub fn summary() -> (s: Summary)
    ensures
        summary_view(s) == summary_spec(),
{
    let mut categories: Vec<Category> = Vec::new();
    categories.push(category_0());
    categories.push(category_1());
    categories.push(category_2());
    let s = Summary { source_folder: "docs", categories };
    assert(summary_view(s).1 =~= summary_spec().1);
    s
}

proof fn lemma_category_0_view_sources()
    ensures
        forall|j: int| 0 <= j < category_0_view().1.len() ==> markdown_in_folder(#[trigger] category_0_view().1[j]),
{
    reveal_strlit("content/");
    reveal_strlit("/index.md");
    reveal_strlit(".md");
    let v = category_0_view().1;
    reveal_strlit("docs/");
    reveal_strlit("content/docs/index.md");
    assert(v[0].markdown_path =~= "content/"@ + folder_stem(v[0].folder) + "/index.md"@);
    reveal_strlit("docs/architecture/");
    reveal_strlit("content/docs/architecture/index.md");
    assert(v[1].markdown_path =~= "content/"@ + folder_stem(v[1].folder) + "/index.md"@);
    reveal_strlit("docs/keycloak-operator/");
    reveal_strlit("content/docs/keycloak-operator/index.md");
    assert(v[2].markdown_path =~= "content/"@ + folder_stem(v[2].folder) + "/index.md"@);
    reveal_strlit("docs/postgres-operator/");
    reveal_strlit("content/docs/postgres-operator/index.md");
    assert(v[3].markdown_path =~= "content/"@ + folder_stem(v[3].folder) + "/index.md"@);
    assert forall|j: int| 0 <= j < v.len() implies markdown_in_folder(#[trigger] v[j]) by {
        if j == 0 {
        } else if j == 1 {
        } else if j == 2 {
        } else if j == 3 {
        }
    }
}

proof fn lemma_category_1_view_sources()
    ensures
        forall|j: int| 0 <= j < category_1_view().1.len() ==> markdown_in_folder(#[trigger] category_1_view().1[j]),
{
    reveal_strlit("content/");
    reveal_strlit("/index.md");
    reveal_strlit(".md");
    let v = category_1_view().1;
    reveal_strlit("docs/cloudflare/");
    reveal_strlit("content/docs/cloudflare/index.md");
    assert(v[0].markdown_path =~= "content/"@ + folder_stem(v[0].folder) + "/index.md"@);
    assert forall|j: int| 0 <= j < v.len() implies markdown_in_folder(#[trigger] v[j]) by {
        if j == 0 {
        }
    }
}

proof fn lemma_category_2_view_sources()
    ensures
        forall|j: int| 0 <= j < category_2_view().1.len() ==> markdown_in_folder(#[trigger] category_2_view().1[j]),
{
    reveal_strlit("content/");
    reveal_strlit("/index.md");
    reveal_strlit(".md");
    let v = category_2_view().1;
    reveal_strlit("docs/framework/");
    reveal_strlit("content/docs/framework/index.md");
    assert(v[0].markdown_path =~= "content/"@ + folder_stem(v[0].folder) + "/index.md"@);
    reveal_strlit("docs/framework/flask/");
    reveal_strlit("content/docs/framework/flask.md");
    assert(v[1].markdown_path =~= "content/"@ + folder_stem(v[1].folder) + ".md"@);
    assert forall|j: int| 0 <= j < v.len() implies markdown_in_folder(#[trigger] v[j]) by {
        if j == 0 {
        } else if j == 1 {
        }
    }
}

/// Every page takes its markdown from its own folder of the content tree.
pub proof fn lemma_markdown_sources()
    ensures
        sources_in_folders(summary_spec()),
{
    lemma_category_0_view_sources();
    lemma_category_1_view_sources();
    lemma_category_2_view_sources();
    let s = summary_spec();
    assert forall|c: int, j: int| 0 <= c < s.1.len() && 0 <= j < s.1[c].1.len() implies markdown_in_folder(#[trigger] s.1[c].1[j]) by {
        if c == 0 {
            assert(s.1[c] == category_0_view());
        } else if c == 1 {
            assert(s.1[c] == category_1_view());
        } else if c == 2 {
            assert(s.1[c] == category_2_view());
        }
    }
}

} // verus!
