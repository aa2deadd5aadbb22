use vstd::prelude::*;

verus! {

/// Query parameters of the list operation: `page` is 1-based.
pub struct FilterOptions {
    pub page: Option<usize>,
    pub limit: Option<usize>,
}

/// Body of a create request.
pub struct CreateNoteSchema {
    pub title: String,
    pub content: String,
    pub category: Option<String>,
}

pub ghost struct CreateNoteView {
    pub title: Seq<char>,
    pub content: Seq<char>,
    pub category: Option<Seq<char>>,
}

impl View for CreateNoteSchema {
    type V = CreateNoteView;

    open spec fn view(&self) -> CreateNoteView {
        CreateNoteView {
            title: self.title@,
            content: self.content@,
            category: crate::model::opt_text(self.category),
        }
    }
}

/// Body of an update request: every field omitted keeps its stored value.
pub struct UpdateNoteSchema {
    pub title: Option<String>,
    pub content: Option<String>,
    pub category: Option<String>,
    pub published: Option<bool>,
}

pub ghost struct UpdateNoteView {
    pub title: Option<Seq<char>>,
    pub content: Option<Seq<char>>,
    pub category: Option<Seq<char>>,
    pub published: Option<bool>,
}

impl View for UpdateNoteSchema {
    type V = UpdateNoteView;

    open spec fn view(&self) -> UpdateNoteView {
        UpdateNoteView {
            title: crate::model::opt_text(self.title),
            content: crate::model::opt_text(self.content),
            category: crate::model::opt_text(self.category),
            published: self.published,
        }
    }
}

} // verus!
