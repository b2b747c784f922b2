//! The posts of the Rust on Nails blog.
use crate::site::{
    category_view, folder_stem, markdown_in_folder, page_view, sources_in_folders, summary_view, Category,
    Page, PageView, Summary,
};
use vstd::prelude::*;
use vstd::string::*;

verus! {

pub open spec fn category_0_view() -> (Seq<char>, Seq<PageView>) {
    (
        "TOFU"@,
        seq![
            PageView {
                date: "2025-02-04"@,
                title: "Stop saying Kubernetes is Complicated"@,
                description: "Stop saying Kubernetes is Complicated"@,
                folder: "blog/kubernetes-complicated/"@,
                markdown_path: "content/blog/kubernetes-complicated/index.md"@,
                image: Some("/blog/kubernetes-complicated/kubernetes.webp"@),
                author: Some("Ian Purton"@),
                author_image: Some("/blog-authors/ian-purton.jpeg"@),
            },
            PageView {
                date: "2025-01-28"@,
                title: "Stop building React backends in Java, Python or Go"@,
                description: "Stop building React backends in Java, Python or Go"@,
                folder: "blog/react-backends/"@,
                markdown_path: "content/blog/react-backends/index.md"@,
                image: Some("/blog/react-backends/backend-army.png"@),
                author: Some("Ian Purton"@),
                author_image: Some("/blog-authors/ian-purton.jpeg"@),
            },
            PageView {
                date: "2024-12-24"@,
                title: "Rust on Nails : Version 0.1"@,
                description: "Rust on Nails : Version 0.1"@,
                folder: "blog/version-0.1/"@,
                markdown_path: "content/blog/version-0.1/index.md"@,
                image: Some("/blog/version-0.1/example-app.png"@),
                author: Some("Ian Purton"@),
                author_image: Some("/blog-authors/ian-purton.jpeg"@),
            },
            PageView {
                date: "2025-01-09"@,
                title: "SQL vs. NoSQL: A Senior Architect’s Perspective"@,
                description: "SQL vs. NoSQL: A Senior Architect’s Perspective"@,
                folder: "blog/sql-vs-nosql/"@,
                markdown_path: "content/blog/sql-vs-nosql/index.md"@,
                image: Some("/blog/sql-vs-nosql/sql-vs-nosql.png"@),
                author: Some("Ian Purton"@),
                author_image: Some("/blog-authors/ian-purton.jpeg"@),
            },
            PageView {
                date: "2025-01-10"@,
                title: "MPA vs SPA in 2025: A Senior Architect’s Perspective"@,
                description: "PA vs. SPA: A Senior Architect’s Perspective"@,
                folder: "blog/mpa-vs-spa/"@,
                markdown_path: "content/blog/mpa-vs-spa/index.md"@,
                image: Some("/blog/mpa-vs-spa/mpa-vs-spa.png"@),
                author: Some("Ian Purton"@),
                author_image: Some("/blog-authors/ian-purton.jpeg"@),
            },
            PageView {
                date: "2025-01-15"@,
                title: "Stop saying Rust is Complicated"@,
                description: "Stop saying Rust is Complicated"@,
                folder: "blog/rust-complicated/"@,
                markdown_path: "content/blog/rust-complicated/index.md"@,
                image: Some("/blog/rust-complicated/rust.jpg"@),
                author: Some("Ian Purton"@),
                author_image: Some("/blog-authors/ian-purton.jpeg"@),
            },
        ],
    )
}

fn category_0() -> (c: Category)
    ensures
        category_view(c) == category_0_view(),
{
    let mut pages: Vec<Page> = Vec::new();
    pages.push(
        Page {
            date: "2025-02-04",
            title: "Stop saying Kubernetes is Complicated",
            description: "Stop saying Kubernetes is Complicated",
            folder: "blog/kubernetes-complicated/",
            markdown_path: "content/blog/kubernetes-complicated/index.md",
            image: Some("/blog/kubernetes-complicated/kubernetes.webp"),
            author: Some("Ian Purton"),
            author_image: Some("/blog-authors/ian-purton.jpeg"),
        },
    );
    pages.push(
        Page {
            date: "2025-01-28",
            title: "Stop building React backends in Java, Python or Go",
            description: "Stop building React backends in Java, Python or Go",
            folder: "blog/react-backends/",
            markdown_path: "content/blog/react-backends/index.md",
            image: Some("/blog/react-backends/backend-army.png"),
            author: Some("Ian Purton"),
            author_image: Some("/blog-authors/ian-purton.jpeg"),
        },
    );
    pages.push(
        Page {
            date: "2024-12-24",
            title: "Rust on Nails : Version 0.1",
            description: "Rust on Nails : Version 0.1",
            folder: "blog/version-0.1/",
            markdown_path: "content/blog/version-0.1/index.md",
            image: Some("/blog/version-0.1/example-app.png"),
            author: Some("Ian Purton"),
            author_image: Some("/blog-authors/ian-purton.jpeg"),
        },
    );
    pages.push(
        Page {
            date: "2025-01-09",
            title: "SQL vs. NoSQL: A Senior Architect’s Perspective",
            description: "SQL vs. NoSQL: A Senior Architect’s Perspective",
            folder: "blog/sql-vs-nosql/",
            markdown_path: "content/blog/sql-vs-nosql/index.md",
            image: Some("/blog/sql-vs-nosql/sql-vs-nosql.png"),
            author: Some("Ian Purton"),
            author_image: Some("/blog-authors/ian-purton.jpeg"),
        },
    );
    pages.push(
        Page {
            date: "2025-01-10",
            title: "MPA vs SPA in 2025: A Senior Architect’s Perspective",
            description: "PA vs. SPA: A Senior Architect’s Perspective",
            folder: "blog/mpa-vs-spa/",
            markdown_path: "content/blog/mpa-vs-spa/index.md",
            image: Some("/blog/mpa-vs-spa/mpa-vs-spa.png"),
            author: Some("Ian Purton"),
            author_image: Some("/blog-authors/ian-purton.jpeg"),
        },
    );
    pages.push(
        Page {
            date: "2025-01-15",
            title: "Stop saying Rust is Complicated",
            description: "Stop saying Rust is Complicated",
            folder: "blog/rust-complicated/",
            markdown_path: "content/blog/rust-complicated/index.md",
            image: Some("/blog/rust-complicated/rust.jpg"),
            author: Some("Ian Purton"),
            author_image: Some("/blog-authors/ian-purton.jpeg"),
        },
    );
    let c = Category { name: String::from_str("TOFU"), pages };
    assert(category_view(c).1 =~= category_0_view().1);
    c
}

/// The categories and pages of the summary.
pub open spec fn summary_spec() -> (Seq<char>, Seq<(Seq<char>, Seq<PageView>)>) {
    ("blog"@, seq![category_0_view()])
}

/// The summary of the Rust on Nails blog, published from `blog`.
pub fn summary() -> (s: Summary)
    ensures
        summary_view(s) == summary_spec(),
{
    let mut categories: Vec<Category> = Vec::new();
    categories.push(category_0());
    let s = Summary { source_folder: "blog", categories };
    assert(summary_view(s).1 =~= summary_spec().1);
    s
}

proof fn lemma_category_0_view_sources()
    ensures
        forall|j: int| 0 <= j < category_0_view().1.len() ==> markdown_in_folder(#[trigger] category_0_view().1[j]),
{
    reveal_strlit("content/");
    reveal_strlit("/index.md");
    reveal_strlit(".md");
    let v = category_0_view().1;
    reveal_strlit("blog/kubernetes-complicated/");
    reveal_strlit("content/blog/kubernetes-complicated/index.md");
    assert(v[0].markdown_path =~= "content/"@ + folder_stem(v[0].folder) + "/index.md"@);
    reveal_strlit("blog/react-backends/");
    reveal_strlit("content/blog/react-backends/index.md");
    assert(v[1].markdown_path =~= "content/"@ + folder_stem(v[1].folder) + "/index.md"@);
    reveal_strlit("blog/version-0.1/");
    reveal_strlit("content/blog/version-0.1/index.md");
    assert(v[2].markdown_path =~= "content/"@ + folder_stem(v[2].folder) + "/index.md"@);
    reveal_strlit("blog/sql-vs-nosql/");
    reveal_strlit("content/blog/sql-vs-nosql/index.md");
    assert(v[3].markdown_path =~= "content/"@ + folder_stem(v[3].folder) + "/index.md"@);
    reveal_strlit("blog/mpa-vs-spa/");
    reveal_strlit("content/blog/mpa-vs-spa/index.md");
    assert(v[4].markdown_path =~= "content/"@ + folder_stem(v[4].folder) + "/index.md"@);
    reveal_strlit("blog/rust-complicated/");
    reveal_strlit("content/blog/rust-complicated/index.md");
    assert(v[5].markdown_path =~= "content/"@ + folder_stem(v[5].folder) + "/index.md"@);
    assert forall|j: int| 0 <= j < v.len() implies markdown_in_folder(#[trigger] v[j]) by {
        if j == 0 {
        } else if j == 1 {
        } else if j == 2 {
        } else if j == 3 {
        } else if j == 4 {
        } else if j == 5 {
        }
    }
}

/// Every page takes its markdown from its own folder of the content tree.
pub proof fn lemma_markdown_sources()
    ensures
        sources_in_folders(summary_spec()),
{
    lemma_category_0_view_sources();
    let s = summary_spec();
    assert forall|c: int, j: int| 0 <= c < s.1.len() && 0 <= j < s.1[c].1.len() implies markdown_in_folder(#[trigger] s.1[c].1[j]) by {
        if c == 0 {
            assert(s.1[c] == category_0_view());
        }
    }
}

} // verus!
