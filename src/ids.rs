use vstd::prelude::*;

verus! {

/// An application identifier, compared by value.
#[derive(Debug, Clone, PartialEq, Eq, Hash)]
pub struct AppID {
    id: String,
}

impl View for AppID {
    type V = Seq<char>;

    closed spec fn view(&self) -> Seq<char> {
        self.id@
    }
}

impl AppID {
    pub fn new(id: &str) -> (r: Self)
        ensures
            r@ == id@,
    {
        AppID { id: id.to_owned() }
    }

    pub fn from_string(id: String) -> (r: Self)
        ensures
            r@ == id@,
    {
        AppID { id }
    }

    pub fn as_str(&self) -> (r: &str)
        ensures
            r@ == self@,
    {
        self.id.as_str()
    }

    /// The identifier as an owned string, as it is displayed.
    pub fn to_string(&self) -> (r: String)
        ensures
            r@ == self@,
    {
        self.id.clone()
    }
}

/// The identifier of a file in the document store, compared by value.
#[derive(Debug, Clone, PartialEq, Eq, Hash)]
pub struct DocumentID {
    id: String,
}

impl View for DocumentID {
    type V = Seq<char>;

    closed spec fn view(&self) -> Seq<char> {
        self.id@
    }
}

impl DocumentID {
    pub fn new(id: &str) -> (r: Self)
        ensures
            r@ == id@,
    {
        DocumentID { id: id.to_owned() }
    }

    pub fn from_string(id: String) -> (r: Self)
        ensures
            r@ == id@,
    {
        DocumentID { id }
    }

    pub fn as_str(&self) -> (r: &str)
        ensures
            r@ == self@,
    {
        self.id.as_str()
    }
}

} // verus!
