//! Tests of per-image extraction, the adjacency pass, the weight table,
//! and the ranked output.

use repo_icons::dom::{DomElement, ImgNode, ReadmeDoc};
use repo_icons::image::{KeywordMention, ProjectLink, ReadmeImage};
use repo_icons::rank::{apply_edges, rank};
use repo_icons::readme::Readme;

fn b(s: &str) -> Vec<u8> {
    s.as_bytes().to_vec()
}

fn img_record(in_heading: bool, src: &str) -> ReadmeImage {
    ReadmeImage {
        src: b(src),
        headers: Vec::new(),
        in_primary_heading: in_heading,
        edge_of_primary_heading: false,
        keyword_mentions: Vec::new(),
        sourced_from_repo: false,
        links_to: None,
        is_align_center: false,
        has_size_attrs: false,
    }
}

fn plain_img(src: &str, parent: Option<usize>, in_heading: bool) -> ImgNode {
    ImgNode {
        parent,
        src: b(src),
        canonical_src: None,
        alt: None,
        has_size_attrs: false,
        in_primary_heading: in_heading,
        badge: false,
    }
}

#[test]
fn weight_table_is_exact() {
    let mut img = img_record(false, "x");
    assert_eq!(img.weight(), 0);
    img.in_primary_heading = true;
    assert_eq!(img.weight(), 2);
    img.is_align_center = true;
    assert_eq!(img.weight(), 4);
    img.has_size_attrs = true;
    assert_eq!(img.weight(), 6);
    img.sourced_from_repo = true;
    assert_eq!(img.weight(), 10);
    img.edge_of_primary_heading = true;
    assert_eq!(img.weight(), 14);
    img.links_to = Some(ProjectLink::Website);
    assert_eq!(img.weight(), 22);
    img.keyword_mentions.push(KeywordMention::Logo);
    assert_eq!(img.weight(), 38);
    img.keyword_mentions.push(KeywordMention::Banner);
    assert_eq!(img.weight(), 46);
    img.keyword_mentions.push(KeywordMention::RepoName);
    assert_eq!(img.weight(), 50);
}

#[test]
fn heading_bonuses_need_the_heading() {
    let mut img = img_record(false, "x");
    img.is_align_center = true;
    img.has_size_attrs = true;
    img.sourced_from_repo = true;
    assert_eq!(img.weight(), 0);
    img.links_to = Some(ProjectLink::Repo);
    assert_eq!(img.weight(), 4);
}

#[test]
fn adjacency_flags_run_ends_and_position_zero() {
    let marked = apply_edges(vec![
        img_record(true, "a"),
        img_record(true, "b"),
        img_record(true, "c"),
        img_record(false, "d"),
        img_record(true, "e"),
    ]);
    let flags: Vec<bool> = marked.iter().map(|m| m.edge_of_primary_heading).collect();
    assert_eq!(flags, vec![true, false, true, false, true]);
}

#[test]
fn adjacency_never_marks_outside_heading() {
    let marked = apply_edges(vec![
        img_record(false, "a"),
        img_record(false, "b"),
        img_record(true, "c"),
    ]);
    assert!(!marked[0].edge_of_primary_heading);
    assert!(!marked[1].edge_of_primary_heading);
    assert!(marked[2].edge_of_primary_heading);
}

#[test]
fn rank_sorts_by_descending_weight_and_keeps_ties_in_order() {
    let mut low = img_record(false, "low");
    low.links_to = Some(ProjectLink::Repo);
    let mut high = img_record(false, "high");
    high.keyword_mentions.push(KeywordMention::Logo);
    let tie_one = img_record(true, "tie-one");
    let tie_two = img_record(true, "tie-two");
    let out = rank(vec![low, tie_one, high, tie_two]);
    let srcs: Vec<Vec<u8>> = out.iter().map(|m| m.src.clone()).collect();
    assert_eq!(srcs, vec![b("high"), b("low"), b("tie-one"), b("tie-two")]);
    let weights: Vec<u8> = out.iter().map(|m| m.weight()).collect();
    assert_eq!(weights, vec![16, 4, 2, 2]);
}

#[test]
fn badge_images_never_reach_the_output() {
    let mut badge = plain_img("badge.svg", None, true);
    badge.badge = true;
    let readme = Readme::new(
        &b("owner"),
        &b("repo"),
        ReadmeDoc {
            elements: Vec::new(),
            images: vec![badge, plain_img("kept.png", None, false)],
        },
        false,
        &b("main"),
        None,
        None,
        Vec::new(),
    );
    let out = readme.images();
    assert_eq!(out.len(), 1);
    assert_eq!(
        out[0].src,
        b("https://raw.githubusercontent.com/owner/repo/main/kept.png")
    );
}

#[test]
fn unresolvable_src_is_dropped_silently() {
    let mut broken = plain_img("x", None, false);
    broken.src = vec![0xff, 0xfe];
    let readme = Readme::new(
        &b("owner"),
        &b("repo"),
        ReadmeDoc {
            elements: Vec::new(),
            images: vec![broken, plain_img("ok.png", None, false)],
        },
        false,
        &b("main"),
        None,
        None,
        Vec::new(),
    );
    let out = readme.images();
    assert_eq!(out.len(), 1);
    assert_eq!(
        out[0].src,
        b("https://raw.githubusercontent.com/owner/repo/main/ok.png")
    );
}

#[test]
fn private_heading_scenario_ranks_the_logo_first() {
    // A private repository; the README's primary heading holds two images.
    // The first is plain; the second declares a width, carries alt text
    // "Project Logo", and sits in a centered anchor pointing at the
    // declared homepage. The second must come out first, repo-sourced and
    // fetched with the bearer token.
    let heading = DomElement { parent: None, is_anchor: false, align_center: false, href: None };
    let anchor = DomElement {
        parent: Some(0),
        is_anchor: true,
        align_center: true,
        href: Some(b("https://widgets.example.org/")),
    };
    let plain = plain_img("https://example.com/first.png", Some(0), true);
    let logo = ImgNode {
        parent: Some(1),
        src: b("/assets/logo.png"),
        canonical_src: None,
        alt: Some(b("Project Logo")),
        has_size_attrs: true,
        in_primary_heading: true,
        badge: false,
    };
    let readme = Readme::new(
        &b("owner"),
        &b("widget"),
        ReadmeDoc { elements: vec![heading, anchor], images: vec![plain, logo] },
        true,
        &b("main"),
        Some(b("https://widgets.example.org/")),
        Some(b("SECRET-REDACTED")),
        Vec::new(),
    );
    let out = readme.images();
    assert_eq!(out.len(), 2);
    // The logo: heading 2 + centered 2 + sized 2 + repo-sourced 4 +
    // edge-of-run 4 + website link 8 + logo keyword 16.
    assert_eq!(
        out[0].src,
        b("https://raw.githubusercontent.com/owner/widget/main/assets/logo.png")
    );
    assert_eq!(out[0].weight(), 38);
    assert!(out[0].sourced_from_repo);
    assert_eq!(out[0].links_to, Some(ProjectLink::Website));
    assert_eq!(out[0].headers.len(), 1);
    assert_eq!(out[0].headers[0].0, b("Authorization"));
    assert_eq!(out[0].headers[0].1, b("Bearer SECRET-REDACTED"));
    // The plain image: heading 2 + edge 4 for opening the candidate list.
    assert_eq!(out[1].src, b("https://example.com/first.png"));
    assert_eq!(out[1].weight(), 6);
    assert!(out[1].headers.is_empty());
}

#[test]
fn companion_raw_to_blob_anchor_is_no_project_link() {
    // GitHub wraps a raw image in an auto-generated anchor to the blob
    // view of the same file; that anchor is not an intentional link.
    let anchor = DomElement {
        parent: None,
        is_anchor: true,
        align_center: false,
        href: Some(b("https://github.com/owner/repo/blob/main/logo.png")),
    };
    let img = plain_img("https://github.com/owner/repo/raw/main/logo.png", Some(0), false);
    let readme = Readme::new(
        &b("owner"),
        &b("repo"),
        ReadmeDoc { elements: vec![anchor], images: vec![img] },
        false,
        &b("main"),
        None,
        None,
        Vec::new(),
    );
    let out = readme.images();
    assert_eq!(out.len(), 1);
    assert_eq!(out[0].links_to, None);
    assert!(out[0].sourced_from_repo);
}

#[test]
fn intentional_anchor_into_repository_is_repo_link() {
    let anchor = DomElement {
        parent: None,
        is_anchor: true,
        align_center: false,
        href: Some(b("https://github.com/owner/repo/blob/main/other.png")),
    };
    let img = plain_img("https://github.com/owner/repo/raw/main/logo.png", Some(0), false);
    let readme = Readme::new(
        &b("owner"),
        &b("repo"),
        ReadmeDoc { elements: vec![anchor], images: vec![img] },
        false,
        &b("main"),
        None,
        None,
        Vec::new(),
    );
    let out = readme.images();
    assert_eq!(out[0].links_to, Some(ProjectLink::Repo));
}

#[test]
fn canonical_rewrite_is_kept_verbatim_without_auth() {
    // A platform-rewritten source is already publicly servable: it is used
    // as it stands, and no authorization header is attached even on a
    // private repository.
    let img = ImgNode {
        parent: None,
        src: b("https://cdn.example.net/rewritten.png"),
        canonical_src: Some(b("/assets/logo.png")),
        alt: None,
        has_size_attrs: false,
        in_primary_heading: false,
        badge: false,
    };
    let readme = Readme::new(
        &b("owner"),
        &b("repo"),
        ReadmeDoc { elements: Vec::new(), images: vec![img] },
        true,
        &b("main"),
        None,
        Some(b("SECRET-REDACTED")),
        Vec::new(),
    );
    let out = readme.images();
    assert_eq!(out.len(), 1);
    assert_eq!(out[0].src, b("https://cdn.example.net/rewritten.png"));
    assert!(out[0].headers.is_empty());
    assert!(out[0].sourced_from_repo);
    assert!(out[0].keyword_mentions.contains(&KeywordMention::Logo));
}

#[test]
fn keywords_come_from_path_and_alt_text() {
    let with_alt = ImgNode {
        parent: None,
        src: b("pics/banner-art.png"),
        canonical_src: None,
        alt: Some(b("the widget logo")),
        has_size_attrs: false,
        in_primary_heading: false,
        badge: false,
    };
    let readme = Readme::new(
        &b("owner"),
        &b("widget"),
        ReadmeDoc { elements: Vec::new(), images: vec![with_alt] },
        false,
        &b("main"),
        None,
        None,
        Vec::new(),
    );
    let out = readme.images();
    let mentions = &out[0].keyword_mentions;
    assert!(mentions.contains(&KeywordMention::Logo));
    assert!(mentions.contains(&KeywordMention::Banner));
    assert!(mentions.contains(&KeywordMention::RepoName));
}

#[test]
fn nearest_anchor_decides_even_inside_an_outer_anchor() {
    // The image sits in a companion anchor that itself sits in an anchor
    // pointing into the repository; only the nearest anchor counts.
    let outer = DomElement {
        parent: None,
        is_anchor: true,
        align_center: false,
        href: Some(b("https://github.com/owner/repo/blob/main/other.png")),
    };
    let inner = DomElement {
        parent: Some(0),
        is_anchor: true,
        align_center: false,
        href: Some(b("https://github.com/owner/repo/blob/main/logo.png")),
    };
    let img = plain_img("https://github.com/owner/repo/raw/main/logo.png", Some(1), false);
    let readme = Readme::new(
        &b("owner"),
        &b("repo"),
        ReadmeDoc { elements: vec![outer, inner], images: vec![img] },
        false,
        &b("main"),
        None,
        None,
        Vec::new(),
    );
    let out = readme.images();
    assert_eq!(out[0].links_to, None);
}

#[test]
fn align_center_is_found_on_a_distant_ancestor() {
    let centered = DomElement { parent: None, is_anchor: false, align_center: true, href: None };
    let middle = DomElement { parent: Some(0), is_anchor: false, align_center: false, href: None };
    let mut img = plain_img("logo.png", Some(1), true);
    img.has_size_attrs = false;
    let readme = Readme::new(
        &b("owner"),
        &b("repo"),
        ReadmeDoc { elements: vec![centered, middle], images: vec![img] },
        false,
        &b("main"),
        None,
        None,
        Vec::new(),
    );
    let out = readme.images();
    assert!(out[0].is_align_center);
    // heading 2 + centered 2 + repo-sourced 4 + edge 4 + logo keyword 16.
    assert_eq!(out[0].weight(), 28);
}
