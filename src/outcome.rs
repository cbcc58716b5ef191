use vstd::prelude::*;
use crate::json::texts;

verus! {

/// What an open dialog reports: either canceled with no paths, or the
/// paths that were picked.
pub struct OpenResult {
    canceled: bool,
    file_paths: Vec<String>,
}

/// What a save dialog reports: either canceled with no path, or the path
/// that was chosen.
pub struct SaveResult {
    canceled: bool,
    file_path: Option<String>,
}

impl View for OpenResult {
    type V = (bool, Seq<Seq<char>>);

    closed spec fn view(&self) -> (bool, Seq<Seq<char>>) {
        (self.canceled, texts(self.file_paths@))
    }
}

impl View for SaveResult {
    type V = (bool, Option<Seq<char>>);

    closed spec fn view(&self) -> (bool, Option<Seq<char>>) {
        (
            self.canceled,
            match self.file_path {
                Some(p) => Some(p@),
                None => None,
            },
        )
    }
}

impl OpenResult {
    #[verifier::type_invariant]
    spec fn inv(self) -> bool {
        self.canceled == (self.file_paths@.len() == 0)
    }

    /// The outcome of a dismissed or failed open dialog.
    pub fn canceled() -> (r: OpenResult)
        ensures
            r@.0,
            r@.1 == Seq::<Seq<char>>::empty(),
    {
        let r = OpenResult { canceled: true, file_paths: Vec::new() };
        assert(r@.1 =~= Seq::<Seq<char>>::empty());
        r
    }

    /// The outcome of an open dialog that picked `path`.
    pub fn picked(path: String) -> (r: OpenResult)
        ensures
            !r@.0,
            r@.1 == seq![path@],
    {
        let mut file_paths: Vec<String> = Vec::new();
        file_paths.push(path);
        let r = OpenResult { canceled: false, file_paths };
        assert(r@.1 =~= seq![path@]);
        r
    }

    /// Whether the dialog was dismissed; exactly then no path is reported.
    pub fn is_canceled(&self) -> (r: bool)
        ensures
            r == self@.0,
            r <==> self@.1.len() == 0,
    {
        proof {
            use_type_invariant(self);
        }
        self.canceled
    }

    /// The picked paths, in order; none exactly when the dialog was dismissed.
    pub fn file_paths(&self) -> (r: &Vec<String>)
        ensures
            texts(r@) == self@.1,
            self@.0 <==> r@.len() == 0,
    {
        proof {
            use_type_invariant(self);
        }
        &self.file_paths
    }

}

impl SaveResult {
    #[verifier::type_invariant]
    spec fn inv(self) -> bool {
        self.canceled == self.file_path.is_none()
    }

    /// The outcome of a dismissed or failed save dialog.
    pub fn canceled() -> (r: SaveResult)
        ensures
            r@ == (true, None::<Seq<char>>),
    {
        SaveResult { canceled: true, file_path: None }
    }

    /// The outcome of a save dialog that chose `path`.
    pub fn chosen(path: String) -> (r: SaveResult)
        ensures
            r@ == (false, Some(path@)),
    {
        SaveResult { canceled: false, file_path: Some(path) }
    }

    /// Whether the dialog was dismissed; exactly then no path is reported.
    pub fn is_canceled(&self) -> (r: bool)
        ensures
            r == self@.0,
            r <==> self@.1.is_none(),
    {
        proof {
            use_type_invariant(self);
        }
        self.canceled
    }

    /// The chosen path; none exactly when the dialog was dismissed.
    pub fn file_path(&self) -> (r: Option<&String>)
        ensures
            match r {
                Some(p) => self@.1 == Some(p@),
                None => self@.1.is_none(),
            },
            self@.0 <==> r.is_none(),
    {
        proof {
            use_type_invariant(self);
        }
        match &self.file_path {
            Some(p) => Some(p),
            None => None,
        }
    }

}

/// Maps what the open picker's callback hands over: a path becomes a picked
/// outcome, its absence a canceled one.
pub fn open_outcome(path: Option<String>) -> (r: OpenResult)
    ensures
        match path {
            Some(p) => r@ == (false, seq![p@]),
            None => r@ == (true, Seq::<Seq<char>>::empty()),
        },
{
    match path {
        Some(p) => OpenResult::picked(p),
        None => OpenResult::canceled(),
    }
}

/// Maps what the save picker's callback hands over.
pub fn save_outcome(path: Option<String>) -> (r: SaveResult)
    ensures
        match path {
            Some(p) => r@ == (false, Some(p@)),
            None => r@ == (true, None::<Seq<char>>),
        },
{
    match path {
        Some(p) => SaveResult::chosen(p),
        None => SaveResult::canceled(),
    }
}

/// The one response of an open request: what the callback delivered, or a
/// canceled outcome where the handoff broke without a value.
pub fn open_response(delivered: Option<OpenResult>) -> (r: OpenResult)
    ensures
        match delivered {
            Some(d) => r@ == d@,
            None => r@ == (true, Seq::<Seq<char>>::empty()),
        },
        r@.0 <==> r@.1.len() == 0,
{
    proof {
        if let Some(d) = &delivered {
            use_type_invariant(d);
        }
    }
    match delivered {
        Some(d) => d,
        None => OpenResult::canceled(),
    }
}

/// The one response of a save request: what the callback delivered, or a
/// canceled outcome where the handoff broke without a value.
pub fn save_response(delivered: Option<SaveResult>) -> (r: SaveResult)
    ensures
        match delivered {
            Some(d) => r@ == d@,
            None => r@ == (true, None::<Seq<char>>),
        },
        r@.0 <==> r@.1.is_none(),
{
    proof {
        if let Some(d) = &delivered {
            use_type_invariant(d);
        }
    }
    match delivered {
        Some(d) => d,
        None => SaveResult::canceled(),
    }
}

} // verus!
