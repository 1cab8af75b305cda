//! The tag record, the todo-tag association, and their request and
//! response shapes. Tag names are unique; a tag without a chosen color
//! gets a fixed default.

use vstd::prelude::*;

use crate::text::clone_opt_string;

verus! {

/// A stored tag row.
#[derive(Debug, Clone, PartialEq)]
pub struct Tag {
    /// Primary key; absent until the store assigns one.
    pub id: Option<i64>,
    /// Unique name.
    pub name: String,
    pub color: String,
    pub description: Option<String>,
    pub created_at: Option<i64>,
    pub updated_at: Option<i64>,
}

/// Body of a tag creation request.
#[derive(Debug, Clone, PartialEq)]
pub struct CreateTagRequest {
    pub name: String,
    pub color: Option<String>,
    pub description: Option<String>,
}

/// Body of a partial tag update; absent fields are left untouched.
#[derive(Debug, Clone, PartialEq)]
pub struct UpdateTagRequest {
    pub name: Option<String>,
    pub color: Option<String>,
    pub description: Option<String>,
}

impl UpdateTagRequest {
    /// Whether the request carries no recognized field.
    pub fn is_empty(&self) -> (r: bool)
        ensures
            r == (self.name is None && self.color is None && self.description is None),
    {
        self.name.is_none() && self.color.is_none() && self.description.is_none()
    }
}

/// The response shape of a tag row.
#[derive(Debug, Clone, PartialEq)]
pub struct TagResponse {
    pub id: i64,
    pub name: String,
    pub color: String,
    pub description: Option<String>,
    pub created_at: i64,
    pub updated_at: i64,
}

/// A row of the join table associating one todo and one tag; at most one
/// association exists per pair.
#[derive(Debug, Clone, PartialEq)]
pub struct TodoTag {
    pub id: Option<i64>,
    pub todo_id: i64,
    pub tag_id: i64,
    pub created_at: Option<i64>,
}

/// Body of an association request.
#[derive(Debug, Clone, PartialEq)]
pub struct AddTagRequest {
    pub todo_id: i64,
    pub tag_id: i64,
}

/// A todo together with its tags.
#[derive(Debug, Clone, PartialEq)]
pub struct TodoWithTagsResponse {
    pub id: i64,
    pub title: String,
    pub description: Option<String>,
    pub status: String,
    pub priority: String,
    pub due_date: Option<i64>,
    pub created_at: i64,
    pub updated_at: i64,
    pub tags: Vec<TagResponse>,
}

/// Whether a response is the faithful image of a row; `now` stands in
/// for timestamps the row lacks and 0 for a missing id.
pub open spec fn tag_response_matches(r: TagResponse, t: Tag, now: i64) -> bool {
    &&& r.id == t.id.unwrap_or(0)
    &&& r.name@ == t.name@
    &&& r.color@ == t.color@
    &&& match (r.description, t.description) {
        (Some(a), Some(b)) => a@ == b@,
        (None, None) => true,
        _ => false,
    }
    &&& r.created_at == t.created_at.unwrap_or(now)
    &&& r.updated_at == t.updated_at.unwrap_or(now)
}

impl TagResponse {
    /// Response view of a row.
    pub fn from_tag(t: &Tag, now: i64) -> (r: TagResponse)
        ensures
            tag_response_matches(r, *t, now),
    {
        TagResponse {
            id: t.id.unwrap_or(0),
            name: t.name.clone(),
            color: t.color.clone(),
            description: clone_opt_string(&t.description),
            created_at: t.created_at.unwrap_or(now),
            updated_at: t.updated_at.unwrap_or(now),
        }
    }
}

/// The color given to a tag created without one.
pub open spec fn spec_default_color() -> Seq<char> {
    "#007bff"@
}

impl Tag {
    /// A fresh row, not yet stored; a missing color becomes the fixed
    /// default.
    pub fn new(name: String, color: Option<String>, description: Option<String>, now: i64) -> (t:
        Tag)
        ensures
            t.id is None,
            t.name == name,
            match color {
                Some(c) => t.color == c,
                None => t.color@ == spec_default_color(),
            },
            t.description == description,
            t.created_at == Some(now),
            t.updated_at == Some(now),
    {
        Tag {
            id: None,
            name,
            color: match color {
                Some(c) => c,
                None => "#007bff".to_owned(),
            },
            description,
            created_at: Some(now),
            updated_at: Some(now),
        }
    }

    /// Apply a partial update: fields present in the request replace the
    /// row's, and the update stamp becomes `now`.
    pub fn update(&mut self, update: UpdateTagRequest, now: i64)
        ensures
            final(self).id == old(self).id,
            final(self).created_at == old(self).created_at,
            final(self).updated_at == Some(now),
            match update.name {
                Some(n) => final(self).name == n,
                None => final(self).name == old(self).name,
            },
            match update.color {
                Some(c) => final(self).color == c,
                None => final(self).color == old(self).color,
            },
            match update.description {
                Some(d) => final(self).description == Some(d),
                None => final(self).description == old(self).description,
            },
    {
        if let Some(name) = update.name {
            self.name = name;
        }
        if let Some(color) = update.color {
            self.color = color;
        }
        if let Some(description) = update.description {
            self.description = Some(description);
        }
        self.updated_at = Some(now);
    }

    /// One of the ten stock tag colors, chosen by an arbitrary seed; a
    /// caller that wants variety hands in entropy, the choice itself is a
    /// plain table lookup.
    pub fn color_from_seed(seed: usize) -> (c: String)
        ensures
            is_stock_color(c@),
    {
        let c: &'static str = match seed % 10 {
            0 => "#007bff",
            1 => "#28a745",
            2 => "#dc3545",
            3 => "#ffc107",
            4 => "#6f42c1",
            5 => "#fd7e14",
            6 => "#20c997",
            7 => "#6c757d",
            8 => "#e83e8c",
            _ => "#17a2b8",
        };
        c.to_owned()
    }
}

/// Whether a color string is one of the ten stock tag colors.
pub open spec fn is_stock_color(c: Seq<char>) -> bool {
    ||| c == "#007bff"@
    ||| c == "#28a745"@
    ||| c == "#dc3545"@
    ||| c == "#ffc107"@
    ||| c == "#6f42c1"@
    ||| c == "#fd7e14"@
    ||| c == "#20c997"@
    ||| c == "#6c757d"@
    ||| c == "#e83e8c"@
    ||| c == "#17a2b8"@
}

} // verus!
