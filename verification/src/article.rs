//! The article a client submits, and the category taxonomy rows.

use vstd::prelude::*;

verus! {

/// The body of an article-creation request.
#[derive(Debug)]
pub struct ArticleCourier {
    pub kind: String,
    pub tags: Vec<Option<String>>,
    pub is_trending: Option<bool>,
    pub is_insight: Option<bool>,
    pub is_recommend: Option<bool>,
    pub cover_url: Option<String>,
    pub title: String,
    pub summary: Option<String>,
    pub text: Option<String>,
    pub text_url: Option<String>,
}

/// One row of the three-level article category taxonomy.
#[derive(Debug)]
pub struct ArticleCategory {
    pub id: i32,
    pub level1: String,
    pub level2: String,
    pub level3: String,
    pub description: String,
}

} // verus!
