use crate::paths::texts;
use vstd::prelude::*;

verus! {

/// The descriptor of a config type: the path templates of the files that belong to it,
/// in the order in which they were given.
///
/// The view is the sequence of the templates' texts.
#[derive(Debug)]
pub struct ConfigTypeDescriptor {
    paths: Vec<String>,
}

impl View for ConfigTypeDescriptor {
    type V = Seq<Seq<char>>;

    closed spec fn view(&self) -> Seq<Seq<char>> {
        texts(self.paths@)
    }
}

impl ConfigTypeDescriptor {
    /// The descriptor without a template.
    pub fn new() -> (descriptor: Self)
        ensures
            descriptor@ == Seq::<Seq<char>>::empty(),
    {
        let descriptor = ConfigTypeDescriptor { paths: Vec::new() };
        descriptor
    }

    /// The descriptor with the given templates, in their order.
    pub fn from_paths(paths: Vec<String>) -> (descriptor: Self)
        ensures
            descriptor@ == texts(paths@),
    {
        ConfigTypeDescriptor { paths }
    }

    /// The templates, in their order.
    pub fn paths(&self) -> (paths: &Vec<String>)
        ensures
            texts(paths@) == self@,
    {
        &self.paths
    }

    /// The number of templates.
    pub fn len(&self) -> (len: usize)
        ensures
            len == self@.len(),
    {
        self.paths.len()
    }

    /// The template at `index`, if there is one.
    pub fn get(&self, index: usize) -> (path: Option<&str>)
        ensures
            (match path {
                Some(text) => index < self@.len() && text@ == self@[index as int],
                None => index >= self@.len(),
            }),
    {
        if index < self.paths.len() {
            Some(self.paths[index].as_str())
        } else {
            None
        }
    }
}

} // verus!
