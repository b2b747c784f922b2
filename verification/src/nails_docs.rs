//! The table of contents of the Rust on Nails documentation.
use crate::site::{
    category_view, folder_stem, markdown_in_folder, page_view, sources_in_folders, summary_view, Category,
    Page, PageView, Summary,
};
use vstd::prelude::*;
use vstd::string::*;

verus! {

pub open spec fn category_0_view() -> (Seq<char>, Seq<PageView>) {
    (
        "Setting Up"@,
        seq![
            PageView {
                date: ""@,
                title: "Introduction"@,
                description: "Introducing Nails"@,
                folder: "docs/"@,
                markdown_path: "content/docs/index.md"@,
                image: None,
                author: None,
                author_image: None,
            },
            PageView {
                date: ""@,
                title: "Development Environment as Code"@,
                description: "Development Environment as Code"@,
                folder: "docs/ide-setup/dev-env-as-code"@,
                markdown_path: "content/docs/ide-setup/dev-env-as-code/index.md"@,
                image: None,
                author: None,
                author_image: None,
            },
        ],
    )
}

fn category_0() -> (c: Category)
    ensures
        category_view(c) == category_0_view(),
{
    let mut pages: Vec<Page> = Vec::new();
    pages.push(
        Page {
            date: "",
            title: "Introduction",
            description: "Introducing Nails",
            folder: "docs/",
            markdown_path: "content/docs/index.md",
            image: None,
            author: None,
            author_image: None,
        },
    );
    pages.push(
        Page {
            date: "",
            title: "Development Environment as Code",
            description: "Development Environment as Code",
            folder: "docs/ide-setup/dev-env-as-code",
            markdown_path: "content/docs/ide-setup/dev-env-as-code/index.md",
            image: None,
            author: None,
            author_image: None,
        },
    );
    let c = Category { name: String::from_str("Setting Up"), pages };
    assert(category_view(c).1 =~= category_0_view().1);
    c
}

pub open spec fn category_1_view() -> (Seq<char>, Seq<PageView>) {
    (
        "The Database"@,
        seq![
            PageView {
                date: ""@,
                title: "The Database"@,
                description: "The Database"@,
                folder: "docs/database-part-1/the-database/"@,
                markdown_path: "content/docs/database-part-1/the-database/index.md"@,
                image: None,
                author: None,
                author_image: None,
            },
            PageView {
                date: ""@,
                title: "Database Schema Migrations"@,
                description: "Database Schema Migrations"@,
                folder: "docs/database-part-1/database-migrations/"@,
                markdown_path: "content/docs/database-part-1/database-migrations/index.md"@,
                image: None,
                author: None,
                author_image: None,
            },
            PageView {
                date: ""@,
                title: "Database Access"@,
                description: "Database Access"@,
                folder: "docs/database-part-1/database-access/"@,
                markdown_path: "content/docs/database-part-1/database-access/index.md"@,
                image: None,
                author: None,
                author_image: None,
            },
        ],
    )
}

fn category_1() -> (c: Category)
    ensures
        category_view(c) == category_1_view(),
{
    let mut pages: Vec<Page> = Vec::new();
    pages.push(
        Page {
            date: "",
            title: "The Database",
            description: "The Database",
            folder: "docs/database-part-1/the-database/",
            markdown_path: "content/docs/database-part-1/the-database/index.md",
            image: None,
            author: None,
            author_image: None,
        },
    );
    pages.push(
        Page {
            date: "",
            title: "Database Schema Migrations",
            description: "Database Schema Migrations",
            folder: "docs/database-part-1/database-migrations/",
            markdown_path: "content/docs/database-part-1/database-migrations/index.md",
            image: None,
            author: None,
            author_image: None,
        },
    );
    pages.push(
        Page {
            date: "",
            title: "Database Access",
            description: "Database Access",
            folder: "docs/database-part-1/database-access/",
            markdown_path: "content/docs/database-part-1/database-access/index.md",
            image: None,
            author: None,
            author_image: None,
        },
    );
    let c = Category { name: String::from_str("The Database"), pages };
    assert(category_view(c).1 =~= category_1_view().1);
    c
}

pub open spec fn category_2_view() -> (Seq<char>, Seq<PageView>) {
    (
        "Common Schemas"@,
        seq![
            PageView {
                date: ""@,
                title: "Auth Schema"@,
                description: "Reusable authentication schema snippets"@,
                folder: "docs/common-schemas/auth/"@,
                markdown_path: "content/docs/common-schemas/auth/index.md"@,
                image: None,
                author: None,
                author_image: None,
            },
            PageView {
                date: ""@,
                title: "Teams Schema"@,
                description: "Collaborative teams modeled inside the auth schema"@,
                folder: "docs/common-schemas/teams/"@,
                markdown_path: "content/docs/common-schemas/teams/index.md"@,
                image: None,
                author: None,
                author_image: None,
            },
            PageView {
                date: ""@,
                title: "RBAC Schema"@,
                description: "Roles, permissions, and helpers that build on auth.me()"@,
                folder: "docs/common-schemas/rbac/"@,
                markdown_path: "content/docs/common-schemas/rbac/index.md"@,
                image: None,
                author: None,
                author_image: None,
            },
        ],
    )
}

fn category_2() -> (c: Category)
    ensures
        category_view(c) == category_2_view(),
{
    let mut pages: Vec<Page> = Vec::new();
    pages.push(
        Page {
            date: "",
            title: "Auth Schema",
            description: "Reusable authentication schema snippets",
            folder: "docs/common-schemas/auth/",
            markdown_path: "content/docs/common-schemas/auth/index.md",
            image: None,
            author: None,
            author_image: None,
        },
    );
    pages.push(
        Page {
            date: "",
            title: "Teams Schema",
            description: "Collaborative teams modeled inside the auth schema",
            folder: "docs/common-schemas/teams/",
            markdown_path: "content/docs/common-schemas/teams/index.md",
            image: None,
            author: None,
            author_image: None,
        },
    );
    pages.push(
        Page {
            date: "",
            title: "RBAC Schema",
            description: "Roles, permissions, and helpers that build on auth.me()",
            folder: "docs/common-schemas/rbac/",
            markdown_path: "content/docs/common-schemas/rbac/index.md",
            image: None,
            author: None,
            author_image: None,
        },
    );
    let c = Category { name: String::from_str("Common Schemas"), pages };
    assert(category_view(c).1 =~= category_2_view().1);
    c
}

pub open spec fn category_3_view() -> (Seq<char>, Seq<PageView>) {
    (
        "Web Development"@,
        seq![
            PageView {
                date: ""@,
                title: "The Web Server and Routing"@,
                description: "The Web Server and Routing"@,
                folder: "docs/full-stack-web/web-server/"@,
                markdown_path: "content/docs/full-stack-web/web-server/index.md"@,
                image: None,
                author: None,
                author_image: None,
            },
            PageView {
                date: ""@,
                title: "Building Pages"@,
                description: "Building Pages"@,
                folder: "docs/full-stack-web/web-pages/"@,
                markdown_path: "content/docs/full-stack-web/web-pages/index.md"@,
                image: None,
                author: None,
                author_image: None,
            },
            PageView {
                date: ""@,
                title: "Assets and Cache Busting"@,
                description: "Assets and Cache Busting"@,
                folder: "docs/full-stack-web/cache-busting"@,
                markdown_path: "content/docs/full-stack-web/cache-busting/index.md"@,
                image: None,
                author: None,
                author_image: None,
            },
            PageView {
                date: ""@,
                title: "Forms and Actions"@,
                description: "Forms and Actions"@,
                folder: "docs/full-stack-web/forms"@,
                markdown_path: "content/docs/full-stack-web/forms/index.md"@,
                image: None,
                author: None,
                author_image: None,
            },
            PageView {
                date: ""@,
                title: "Adding Some Style"@,
                description: "Adding Some Style"@,
                folder: "docs/full-stack-web/styling"@,
                markdown_path: "content/docs/full-stack-web/styling/index.md"@,
                image: None,
                author: None,
                author_image: None,
            },
            PageView {
                date: ""@,
                title: "Building with Components I"@,
                description: "Building with Components I"@,
                folder: "docs/full-stack-web/component-library"@,
                markdown_path: "content/docs/full-stack-web/component-library/index.md"@,
                image: None,
                author: None,
                author_image: None,
            },
            PageView {
                date: ""@,
                title: "Building with Components II"@,
                description: "Building with Components II"@,
                folder: "docs/full-stack-web/component-library2"@,
                markdown_path: "content/docs/full-stack-web/component-library2/index.md"@,
                image: None,
                author: None,
                author_image: None,
            },
            PageView {
                date: ""@,
                title: "HTMX and Interactivity"@,
                description: "HTMX and Interactivity"@,
                folder: "docs/full-stack-web/htmx"@,
                markdown_path: "content/docs/full-stack-web/htmx/index.md"@,
                image: None,
                author: None,
                author_image: None,
            },
            PageView {
                date: ""@,
                title: "More Interactivity (Webassembly)"@,
                description: "More Interactivity (Webassembly)"@,
                folder: "docs/full-stack-web/more-interactivity"@,
                markdown_path: "content/docs/full-stack-web/more-interactivity/index.md"@,
                image: None,
                author: None,
                author_image: None,
            },
            PageView {
                date: ""@,
                title: "More Interactivity (Typescript)"@,
                description: "More Interactivity (Typescript)"@,
                folder: "docs/full-stack-web/more-interactivity-ts"@,
                markdown_path: "content/docs/full-stack-web/more-interactivity-ts/index.md"@,
                image: None,
                author: None,
                author_image: None,
            },
        ],
    )
}

fn category_3() -> (c: Category)
    ensures
        category_view(c) == category_3_view(),
{
    let mut pages: Vec<Page> = Vec::new();
    pages.push(
        Page {
            date: "",
            title: "The Web Server and Routing",
            description: "The Web Server and Routing",
            folder: "docs/full-stack-web/web-server/",
            markdown_path: "content/docs/full-stack-web/web-server/index.md",
            image: None,
            author: None,
            author_image: None,
        },
    );
    pages.push(
        Page {
            date: "",
            title: "Building Pages",
            description: "Building Pages",
            folder: "docs/full-stack-web/web-pages/",
            markdown_path: "content/docs/full-stack-web/web-pages/index.md",
            image: None,
            author: None,
            author_image: None,
        },
    );
    pages.push(
        Page {
            date: "",
            title: "Assets and Cache Busting",
            description: "Assets and Cache Busting",
            folder: "docs/full-stack-web/cache-busting",
            markdown_path: "content/docs/full-stack-web/cache-busting/index.md",
            image: None,
            author: None,
            author_image: None,
        },
    );
    pages.push(
        Page {
            date: "",
            title: "Forms and Actions",
            description: "Forms and Actions",
            folder: "docs/full-stack-web/forms",
            markdown_path: "content/docs/full-stack-web/forms/index.md",
            image: None,
            author: None,
            author_image: None,
        },
    );
    pages.push(
        Page {
            date: "",
            title: "Adding Some Style",
            description: "Adding Some Style",
            folder: "docs/full-stack-web/styling",
            markdown_path: "content/docs/full-stack-web/styling/index.md",
            image: None,
            author: None,
            author_image: None,
        },
    );
    pages.push(
        Page {
            date: "",
            title: "Building with Components I",
            description: "Building with Components I",
            folder: "docs/full-stack-web/component-library",
            markdown_path: "content/docs/full-stack-web/component-library/index.md",
            image: None,
            author: None,
            author_image: None,
        },
    );
    pages.push(
        Page {
            date: "",
            title: "Building with Components II",
            description: "Building with Components II",
            folder: "docs/full-stack-web/component-library2",
            markdown_path: "content/docs/full-stack-web/component-library2/index.md",
            image: None,
            author: None,
            author_image: None,
        },
    );
    pages.push(
        Page {
            date: "",
            title: "HTMX and Interactivity",
            description: "HTMX and Interactivity",
            folder: "docs/full-stack-web/htmx",
            markdown_path: "content/docs/full-stack-web/htmx/index.md",
            image: None,
            author: None,
            author_image: None,
        },
    );
    pages.push(
        Page {
            date: "",
            title: "More Interactivity (Webassembly)",
            description: "More Interactivity (Webassembly)",
            folder: "docs/full-stack-web/more-interactivity",
            markdown_path: "content/docs/full-stack-web/more-interactivity/index.md",
            image: None,
            author: None,
            author_image: None,
        },
    );
    pages.push(
        Page {
            date: "",
            title: "More Interactivity (Typescript)",
            description: "More Interactivity (Typescript)",
            folder: "docs/full-stack-web/more-interactivity-ts",
            markdown_path: "content/docs/full-stack-web/more-interactivity-ts/index.md",
            image: None,
            author: None,
            author_image: None,
        },
    );
    let c = Category { name: String::from_str("Web Development"), pages };
    assert(category_view(c).1 =~= category_3_view().1);
    c
}

pub open spec fn category_4_view() -> (Seq<char>, Seq<PageView>) {
    (
        "Adding an API"@,
        seq![
            PageView {
                date: ""@,
                title: "Integrating gRPC"@,
                description: "Integrating gRPC"@,
                folder: "docs/api/grpc"@,
                markdown_path: "content/docs/api/grpc/index.md"@,
                image: None,
                author: None,
                author_image: None,
            },
            PageView {
                date: ""@,
                title: "gRPC Web"@,
                description: "gRPC Web"@,
                folder: "docs/api/grpc-web"@,
                markdown_path: "content/docs/api/grpc-web/index.md"@,
                image: None,
                author: None,
                author_image: None,
            },
        ],
    )
}

fn category_4() -> (c: Category)
    ensures
        category_view(c) == category_4_view(),
{
    let mut pages: Vec<Page> = Vec::new();
    pages.push(
        Page {
            date: "",
            title: "Integrating gRPC",
            description: "Integrating gRPC",
            folder: "docs/api/grpc",
            markdown_path: "content/docs/api/grpc/index.md",
            image: None,
            author: None,
            author_image: None,
        },
    );
    pages.push(
        Page {
            date: "",
            title: "gRPC Web",
            description: "gRPC Web",
            folder: "docs/api/grpc-web",
            markdown_path: "content/docs/api/grpc-web/index.md",
            image: None,
            author: None,
            author_image: None,
        },
    );
    let c = Category { name: String::from_str("Adding an API"), pages };
    assert(category_view(c).1 =~= category_4_view().1);
    c
}

pub open spec fn category_5_view() -> (Seq<char>, Seq<PageView>) {
    (
        "Continous Integration"@,
        seq![
            PageView {
                date: ""@,
                title: "Build Our Containers"@,
                description: "Build Our Containers"@,
                folder: "docs/continuous-integration/build"@,
                markdown_path: "content/docs/continuous-integration/build/index.md"@,
                image: None,
                author: None,
                author_image: None,
            },
            PageView {
                date: ""@,
                title: "Running CI on Github"@,
                description: "Running CI on Github"@,
                folder: "docs/continuous-integration/github"@,
                markdown_path: "content/docs/continuous-integration/github/index.md"@,
                image: None,
                author: None,
                author_image: None,
            },
            PageView {
                date: ""@,
                title: "Integration Testing"@,
                description: "Integration Testing"@,
                folder: "docs/continuous-integration/integration-testing"@,
                markdown_path: "content/docs/continuous-integration/integration-testing/index.md"@,
                image: None,
                author: None,
                author_image: None,
            },
        ],
    )
}

fn category_5() -> (c: Category)
    ensures
        category_view(c) == category_5_view(),
{
    let mut pages: Vec<Page> = Vec::new();
    pages.push(
        Page {
            date: "",
            title: "Build Our Containers",
            description: "Build Our Containers",
            folder: "docs/continuous-integration/build",
            markdown_path: "content/docs/continuous-integration/build/index.md",
            image: None,
            author: None,
            author_image: None,
        },
    );
    pages.push(
        Page {
            date: "",
            title: "Running CI on Github",
            description: "Running CI on Github",
            folder: "docs/continuous-integration/github",
            markdown_path: "content/docs/continuous-integration/github/index.md",
            image: None,
            author: None,
            author_image: None,
        },
    );
    pages.push(
        Page {
            date: "",
            title: "Integration Testing",
            description: "Integration Testing",
            folder: "docs/continuous-integration/integration-testing",
            markdown_path: "content/docs/continuous-integration/integration-testing/index.md",
            image: None,
            author: None,
            author_image: None,
        },
    );
    let c = Category { name: String::from_str("Continous Integration"), pages };
    assert(category_view(c).1 =~= category_5_view().1);
    c
}

pub open spec fn category_6_view() -> (Seq<char>, Seq<PageView>) {
    (
        "Auxiliary Services"@,
        seq![
            PageView {
                date: ""@,
                title: "Sending Email"@,
                description: "Sending Email"@,
                folder: "docs/auxiliary-services/sending-email"@,
                markdown_path: "content/docs/auxiliary-services/sending-email/index.md"@,
                image: None,
                author: None,
                author_image: None,
            },
            PageView {
                date: ""@,
                title: "Authentication"@,
                description: "Authentication"@,
                folder: "docs/auxiliary-services/authentication"@,
                markdown_path: "content/docs/auxiliary-services/authentication/index.md"@,
                image: None,
                author: None,
                author_image: None,
            },
            PageView {
                date: ""@,
                title: "Database Backups and Development"@,
                description: "Database Backups and Development"@,
                folder: "docs/auxiliary-services/database-backups"@,
                markdown_path: "content/docs/auxiliary-services/database-backups/index.md"@,
                image: None,
                author: None,
                author_image: None,
            },
        ],
    )
}

fn category_6() -> (c: Category)
    ensures
        category_view(c) == category_6_view(),
{
    let mut pages: Vec<Page> = Vec::new();
    pages.push(
        Page {
            date: "",
            title: "Sending Email",
            description: "Sending Email",
            folder: "docs/auxiliary-services/sending-email",
            markdown_path: "content/docs/auxiliary-services/sending-email/index.md",
            image: None,
            author: None,
            author_image: None,
        },
    );
    pages.push(
        Page {
            date: "",
            title: "Authentication",
            description: "Authentication",
            folder: "docs/auxiliary-services/authentication",
            markdown_path: "content/docs/auxiliary-services/authentication/index.md",
            image: None,
            author: None,
            author_image: None,
        },
    );
    pages.push(
        Page {
            date: "",
            title: "Database Backups and Development",
            description: "Database Backups and Development",
            folder: "docs/auxiliary-services/database-backups",
            markdown_path: "content/docs/auxiliary-services/database-backups/index.md",
            image: None,
            author: None,
            author_image: None,
        },
    );
    let c = Category { name: String::from_str("Auxiliary Services"), pages };
    assert(category_view(c).1 =~= category_6_view().1);
    c
}

pub open spec fn category_7_view() -> (Seq<char>, Seq<PageView>) {
    (
        "Continuous Deliver / Deployment"@,
        seq![
            PageView {
                date: ""@,
                title: "Deployed Application Topology"@,
                description: "Understand the operator-managed workloads"@,
                folder: "docs/continous-deployment/deployment-architecture"@,
                markdown_path: "content/docs/continous-deployment/deployment-architecture/index.md"@,
                image: None,
                author: None,
                author_image: None,
            },
            PageView {
                date: ""@,
                title: "Deploying to Kubernetes"@,
                description: "Deploying to Kubernetes"@,
                folder: "docs/continous-deployment/kubernetes"@,
                markdown_path: "content/docs/continous-deployment/kubernetes/index.md"@,
                image: None,
                author: None,
                author_image: None,
            },
            PageView {
                date: ""@,
                title: "Infrastructure as Code"@,
                description: "Infrastructure as Code"@,
                folder: "docs/continous-deployment/infra-as-code"@,
                markdown_path: "content/docs/continous-deployment/infra-as-code/index.md"@,
                image: None,
                author: None,
                author_image: None,
            },
            PageView {
                date: ""@,
                title: "Cloudflare as Ingress"@,
                description: "Cloudflare as Ingress"@,
                folder: "docs/continous-deployment/cloudflare"@,
                markdown_path: "content/docs/continous-deployment/cloudflare/index.md"@,
                image: None,
                author: None,
                author_image: None,
            },
        ],
    )
}

fn category_7() -> (c: Category)
    ensures
        category_view(c) == category_7_view(),
{
    let mut pages: Vec<Page> = Vec::new();
    pages.push(
        Page {
            date: "",
            title: "Deployed Application Topology",
            description: "Understand the operator-managed workloads",
            folder: "docs/continous-deployment/deployment-architecture",
            markdown_path: "content/docs/continous-deployment/deployment-architecture/index.md",
            image: None,
            author: None,
            author_image: None,
        },
    );
    pages.push(
        Page {
            date: "",
            title: "Deploying to Kubernetes",
            description: "Deploying to Kubernetes",
            folder: "docs/continous-deployment/kubernetes",
            markdown_path: "content/docs/continous-deployment/kubernetes/index.md",
            image: None,
            author: None,
            author_image: None,
        },
    );
    pages.push(
        Page {
            date: "",
            title: "Infrastructure as Code",
            description: "Infrastructure as Code",
            folder: "docs/continous-deployment/infra-as-code",
            markdown_path: "content/docs/continous-deployment/infra-as-code/index.md",
            image: None,
            author: None,
            author_image: None,
        },
    );
    pages.push(
        Page {
            date: "",
            title: "Cloudflare as Ingress",
            description: "Cloudflare as Ingress",
            folder: "docs/continous-deployment/cloudflare",
            markdown_path: "content/docs/continous-deployment/cloudflare/index.md",
            image: None,
            author: None,
            author_image: None,
        },
    );
    let c = Category { name: String::from_str("Continuous Deliver / Deployment"), pages };
    assert(category_view(c).1 =~= category_7_view().1);
    c
}

pub open spec fn category_8_view() -> (Seq<char>, Seq<PageView>) {
    (
        "Database Part II"@,
        seq![
            PageView {
                date: ""@,
                title: "Authorization"@,
                description: "Authorization"@,
                folder: "docs/database-part-2/authorization"@,
                markdown_path: "content/docs/database-part-2/authorization/index.md"@,
                image: None,
                author: None,
                author_image: None,
            },
        ],
    )
}

fn category_8() -> (c: Category)
    ensures
        category_view(c) == category_8_view(),
{
    let mut pages: Vec<Page> = Vec::new();
    pages.push(
        Page {
            date: "",
            title: "Authorization",
            description: "Authorization",
            folder: "docs/database-part-2/authorization",
            markdown_path: "content/docs/database-part-2/authorization/index.md",
            image: None,
            author: None,
            author_image: None,
        },
    );
    let c = Category { name: String::from_str("Database Part II"), pages };
    assert(category_view(c).1 =~= category_8_view().1);
    c
}

/// The categories and pages of the summary.
pub open spec fn summary_spec() -> (Seq<char>, Seq<(Seq<char>, Seq<PageView>)>) {
    ("docs"@, seq![category_0_view(), category_1_view(), category_2_view(), category_3_view(), category_4_view(), category_5_view(), category_6_view(), category_7_view(), category_8_view()])
}

/// The summary of the Rust on Nails documentation, published from `docs`.
pub fn summary() -> (s: Summary)
    ensures
        summary_view(s) == summary_spec(),
{
    let mut categories: Vec<Category> = Vec::new();
    categories.push(category_0());
    categories.push(category_1());
    categories.push(category_2());
    categories.push(category_3());
    categories.push(category_4());
    categories.push(category_5());
    categories.push(category_6());
    categories.push(category_7());
    categories.push(category_8());
    let s = Summary { source_folder: "docs", categories };
    assert(summary_view(s).1 =~= summary_spec().1);
    s
}

proof fn lemma_category_0_view_sources()
    ensures
        forall|j: int| 0 <= j < category_0_view().1.len() ==> markdown_in_folder(#[trigger] category_0_view().1[j]),
{
    reveal_strlit("content/");
    reveal_strlit("/index.md");
    reveal_strlit(".md");
    let v = category_0_view().1;
    reveal_strlit("docs/");
    reveal_strlit("content/docs/index.md");
    assert(v[0].markdown_path =~= "content/"@ + folder_stem(v[0].folder) + "/index.md"@);
    reveal_strlit("docs/ide-setup/dev-env-as-code");
    reveal_strlit("content/docs/ide-setup/dev-env-as-code/index.md");
    assert(v[1].markdown_path =~= "content/"@ + folder_stem(v[1].folder) + "/index.md"@);
    assert forall|j: int| 0 <= j < v.len() implies markdown_in_folder(#[trigger] v[j]) by {
        if j == 0 {
        } else if j == 1 {
        }
    }
}

proof fn lemma_category_1_view_sources()
    ensures
        forall|j: int| 0 <= j < category_1_view().1.len() ==> markdown_in_folder(#[trigger] category_1_view().1[j]),
{
    reveal_strlit("content/");
    reveal_strlit("/index.md");
    reveal_strlit(".md");
    let v = category_1_view().1;
    reveal_strlit("docs/database-part-1/the-database/");
    reveal_strlit("content/docs/database-part-1/the-database/index.md");
    assert(v[0].markdown_path =~= "content/"@ + folder_stem(v[0].folder) + "/index.md"@);
    reveal_strlit("docs/database-part-1/database-migrations/");
    reveal_strlit("content/docs/database-part-1/database-migrations/index.md");
    assert(v[1].markdown_path =~= "content/"@ + folder_stem(v[1].folder) + "/index.md"@);
    reveal_strlit("docs/database-part-1/database-access/");
    reveal_strlit("content/docs/database-part-1/database-access/index.md");
    assert(v[2].markdown_path =~= "content/"@ + folder_stem(v[2].folder) + "/index.md"@);
    assert forall|j: int| 0 <= j < v.len() implies markdown_in_folder(#[trigger] v[j]) by {
        if j == 0 {
        } else if j == 1 {
        } else if j == 2 {
        }
    }
}

proof fn lemma_category_2_view_sources()
    ensures
        forall|j: int| 0 <= j < category_2_view().1.len() ==> markdown_in_folder(#[trigger] category_2_view().1[j]),
{
    reveal_strlit("content/");
    reveal_strlit("/index.md");
    reveal_strlit(".md");
    let v = category_2_view().1;
    reveal_strlit("docs/common-schemas/auth/");
    reveal_strlit("content/docs/common-schemas/auth/index.md");
    assert(v[0].markdown_path =~= "content/"@ + folder_stem(v[0].folder) + "/index.md"@);
    reveal_strlit("docs/common-schemas/teams/");
    reveal_strlit("content/docs/common-schemas/teams/index.md");
    assert(v[1].markdown_path =~= "content/"@ + folder_stem(v[1].folder) + "/index.md"@);
    reveal_strlit("docs/common-schemas/rbac/");
    reveal_strlit("content/docs/common-schemas/rbac/index.md");
    assert(v[2].markdown_path =~= "content/"@ + folder_stem(v[2].folder) + "/index.md"@);
    assert forall|j: int| 0 <= j < v.len() implies markdown_in_folder(#[trigger] v[j]) by {
        if j == 0 {
        } else if j == 1 {
        } else if j == 2 {
        }
    }
}

proof fn lemma_category_3_view_sources()
    ensures
        forall|j: int| 0 <= j < category_3_view().1.len() ==> markdown_in_folder(#[trigger] category_3_view().1[j]),
{
    reveal_strlit("content/");
    reveal_strlit("/index.md");
    reveal_strlit(".md");
    let v = category_3_view().1;
    reveal_strlit("docs/full-stack-web/web-server/");
    reveal_strlit("content/docs/full-stack-web/web-server/index.md");
    assert(v[0].markdown_path =~= "content/"@ + folder_stem(v[0].folder) + "/index.md"@);
    reveal_strlit("docs/full-stack-web/web-pages/");
    reveal_strlit("content/docs/full-stack-web/web-pages/index.md");
    assert(v[1].markdown_path =~= "content/"@ + folder_stem(v[1].folder) + "/index.md"@);
    reveal_strlit("docs/full-stack-web/cache-busting");
    reveal_strlit("content/docs/full-stack-web/cache-busting/index.md");
    assert(v[2].markdown_path =~= "content/"@ + folder_stem(v[2].folder) + "/index.md"@);
    reveal_strlit("docs/full-stack-web/forms");
    reveal_strlit("content/docs/full-stack-web/forms/index.md");
    assert(v[3].markdown_path =~= "content/"@ + folder_stem(v[3].folder) + "/index.md"@);
    reveal_strlit("docs/full-stack-web/styling");
    reveal_strlit("content/docs/full-stack-web/styling/index.md");
    assert(v[4].markdown_path =~= "content/"@ + folder_stem(v[4].folder) + "/index.md"@);
    reveal_strlit("docs/full-stack-web/component-library");
    reveal_strlit("content/docs/full-stack-web/component-library/index.md");
    assert(v[5].markdown_path =~= "content/"@ + folder_stem(v[5].folder) + "/index.md"@);
    reveal_strlit("docs/full-stack-web/component-library2");
    reveal_strlit("content/docs/full-stack-web/component-library2/index.md");
    assert(v[6].markdown_path =~= "content/"@ + folder_stem(v[6].folder) + "/index.md"@);
    reveal_strlit("docs/full-stack-web/htmx");
    reveal_strlit("content/docs/full-stack-web/htmx/index.md");
    assert(v[7].markdown_path =~= "content/"@ + folder_stem(v[7].folder) + "/index.md"@);
    reveal_strlit("docs/full-stack-web/more-interactivity");
    reveal_strlit("content/docs/full-stack-web/more-interactivity/index.md");
    assert(v[8].markdown_path =~= "content/"@ + folder_stem(v[8].folder) + "/index.md"@);
    reveal_strlit("docs/full-stack-web/more-interactivity-ts");
    reveal_strlit("content/docs/full-stack-web/more-interactivity-ts/index.md");
    assert(v[9].markdown_path =~= "content/"@ + folder_stem(v[9].folder) + "/index.md"@);
    assert forall|j: int| 0 <= j < v.len() implies markdown_in_folder(#[trigger] v[j]) by {
        if j == 0 {
        } else if j == 1 {
        } else if j == 2 {
        } else if j == 3 {
        } else if j == 4 {
        } else if j == 5 {
        } else if j == 6 {
        } else if j == 7 {
        } else if j == 8 {
        } else if j == 9 {
        }
    }
}

proof fn lemma_category_4_view_sources()
    ensures
        forall|j: int| 0 <= j < category_4_view().1.len() ==> markdown_in_folder(#[trigger] category_4_view().1[j]),
{
    reveal_strlit("content/");
    reveal_strlit("/index.md");
    reveal_strlit(".md");
    let v = category_4_view().1;
    reveal_strlit("docs/api/grpc");
    reveal_strlit("content/docs/api/grpc/index.md");
    assert(v[0].markdown_path =~= "content/"@ + folder_stem(v[0].folder) + "/index.md"@);
    reveal_strlit("docs/api/grpc-web");
    reveal_strlit("content/docs/api/grpc-web/index.md");
    assert(v[1].markdown_path =~= "content/"@ + folder_stem(v[1].folder) + "/index.md"@);
    assert forall|j: int| 0 <= j < v.len() implies markdown_in_folder(#[trigger] v[j]) by {
        if j == 0 {
        } else if j == 1 {
        }
    }
}

proof fn lemma_category_5_view_sources()
    ensures
        forall|j: int| 0 <= j < category_5_view().1.len() ==> markdown_in_folder(#[trigger] category_5_view().1[j]),
{
    reveal_strlit("content/");
    reveal_strlit("/index.md");
    reveal_strlit(".md");
    let v = category_5_view().1;
    reveal_strlit("docs/continuous-integration/build");
    reveal_strlit("content/docs/continuous-integration/build/index.md");
    assert(v[0].markdown_path =~= "content/"@ + folder_stem(v[0].folder) + "/index.md"@);
    reveal_strlit("docs/continuous-integration/github");
    reveal_strlit("content/docs/continuous-integration/github/index.md");
    assert(v[1].markdown_path =~= "content/"@ + folder_stem(v[1].folder) + "/index.md"@);
    reveal_strlit("docs/continuous-integration/integration-testing");
    reveal_strlit("content/docs/continuous-integration/integration-testing/index.md");
    assert(v[2].markdown_path =~= "content/"@ + folder_stem(v[2].folder) + "/index.md"@);
    assert forall|j: int| 0 <= j < v.len() implies markdown_in_folder(#[trigger] v[j]) by {
        if j == 0 {
        } else if j == 1 {
        } else if j == 2 {
        }
    }
}

proof fn lemma_category_6_view_sources()
    ensures
        forall|j: int| 0 <= j < category_6_view().1.len() ==> markdown_in_folder(#[trigger] category_6_view().1[j]),
{
    reveal_strlit("content/");
    reveal_strlit("/index.md");
    reveal_strlit(".md");
    let v = category_6_view().1;
    reveal_strlit("docs/auxiliary-services/sending-email");
    reveal_strlit("content/docs/auxiliary-services/sending-email/index.md");
    assert(v[0].markdown_path =~= "content/"@ + folder_stem(v[0].folder) + "/index.md"@);
    reveal_strlit("docs/auxiliary-services/authentication");
    reveal_strlit("content/docs/auxiliary-services/authentication/index.md");
    assert(v[1].markdown_path =~= "content/"@ + folder_stem(v[1].folder) + "/index.md"@);
    reveal_strlit("docs/auxiliary-services/database-backups");
    reveal_strlit("content/docs/auxiliary-services/database-backups/index.md");
    assert(v[2].markdown_path =~= "content/"@ + folder_stem(v[2].folder) + "/index.md"@);
    assert forall|j: int| 0 <= j < v.len() implies markdown_in_folder(#[trigger] v[j]) by {
        if j == 0 {
        } else if j == 1 {
        } else if j == 2 {
        }
    }
}

proof fn lemma_category_7_view_sources()
    ensures
        forall|j: int| 0 <= j < category_7_view().1.len() ==> markdown_in_folder(#[trigger] category_7_view().1[j]),
{
    reveal_strlit("content/");
    reveal_strlit("/index.md");
    reveal_strlit(".md");
    let v = category_7_view().1;
    reveal_strlit("docs/continous-deployment/deployment-architecture");
    reveal_strlit("content/docs/continous-deployment/deployment-architecture/index.md");
    assert(v[0].markdown_path =~= "content/"@ + folder_stem(v[0].folder) + "/index.md"@);
    reveal_strlit("docs/continous-deployment/kubernetes");
    reveal_strlit("content/docs/continous-deployment/kubernetes/index.md");
    assert(v[1].markdown_path =~= "content/"@ + folder_stem(v[1].folder) + "/index.md"@);
    reveal_strlit("docs/continous-deployment/infra-as-code");
    reveal_strlit("content/docs/continous-deployment/infra-as-code/index.md");
    assert(v[2].markdown_path =~= "content/"@ + folder_stem(v[2].folder) + "/index.md"@);
    reveal_strlit("docs/continous-deployment/cloudflare");
    reveal_strlit("content/docs/continous-deployment/cloudflare/index.md");
    assert(v[3].markdown_path =~= "content/"@ + folder_stem(v[3].folder) + "/index.md"@);
    assert forall|j: int| 0 <= j < v.len() implies markdown_in_folder(#[trigger] v[j]) by {
        if j == 0 {
        } else if j == 1 {
        } else if j == 2 {
        } else if j == 3 {
        }
    }
}

proof fn lemma_category_8_view_sources()
    ensures
        forall|j: int| 0 <= j < category_8_view().1.len() ==> markdown_in_folder(#[trigger] category_8_view().1[j]),
{
    reveal_strlit("content/");
    reveal_strlit("/index.md");
    reveal_strlit(".md");
    let v = category_8_view().1;
    reveal_strlit("docs/database-part-2/authorization");
    reveal_strlit("content/docs/database-part-2/authorization/index.md");
    assert(v[0].markdown_path =~= "content/"@ + folder_stem(v[0].folder) + "/index.md"@);
    assert forall|j: int| 0 <= j < v.len() implies markdown_in_folder(#[trigger] v[j]) by {
        if j == 0 {
        }
    }
}

/// Every page takes its markdown from its own folder of the content tree.
pub proof fn lemma_markdown_sources()
    ensures
        sources_in_folders(summary_spec()),
{
    lemma_category_0_view_sources();
    lemma_category_1_view_sources();
    lemma_category_2_view_sources();
    lemma_category_3_view_sources();
    lemma_category_4_view_sources();
    lemma_category_5_view_sources();
    lemma_category_6_view_sources();
    lemma_category_7_view_sources();
    lemma_category_8_view_sources();
    let s = summary_spec();
    assert forall|c: int, j: int| 0 <= c < s.1.len() && 0 <= j < s.1[c].1.len() implies markdown_in_folder(#[trigger] s.1[c].1[j]) by {
        if c == 0 {
            assert(s.1[c] == category_0_view());
        } else if c == 1 {
            assert(s.1[c] == category_1_view());
        } else if c == 2 {
            assert(s.1[c] == category_2_view());
        } else if c == 3 {
            assert(s.1[c] == category_3_view());
        } else if c == 4 {
            assert(s.1[c] == category_4_view());
        } else if c == 5 {
            assert(s.1[c] == category_5_view());
        } else if c == 6 {
            assert(s.1[c] == category_6_view());
        } else if c == 7 {
            assert(s.1[c] == category_7_view());
        } else if c == 8 {
            assert(s.1[c] == category_8_view());
        }
    }
}

} // verus!
