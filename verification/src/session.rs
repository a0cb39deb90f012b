//! What a session holds: the directories, the classes and the caption prefix.

use vstd::prelude::*;
use crate::paths::{join, joined};
use crate::text::{decimal, decimal_string, lemma_decimal_digits, texts};

verus! {

/// A class of images: one directory of the dataset, named by a repeat count
/// and a label.
#[derive(Debug, Clone, PartialEq, Eq)]
pub struct Class {
    pub label: String,
    pub repeats: usize,
}

impl Class {
    /// A class that may be added: its label is not empty, its count at least 1.
    pub open spec fn valid(self) -> bool {
        self.label@.len() > 0 && self.repeats >= 1
    }

    /// The name of the class's directory: the count as a decimal numeral, one
    /// underscore, and the label as it was entered.
    pub open spec fn dir_name(self) -> Seq<char> {
        decimal(self.repeats as nat).push('_') + self.label@
    }

    /// The class's directory under the dataset's root.
    pub open spec fn target_dir(self, root: Seq<char>) -> Seq<char> {
        joined(root, self.dir_name())
    }

    /// The class's directory under `output_root`.
    pub fn path(&self, output_root: String) -> (r: String)
        ensures
            r@ == self.target_dir(output_root@),
    {
        let mut name = decimal_string(self.repeats);
        name.push('_');
        name.push_str(self.label.as_str());
        join(output_root.as_str(), name.as_str())
    }
}

/// Under a root that is not empty and does not end in a separator, the
/// directory of a class is the root, a separator, the count, an underscore and
/// the label, in this order and with nothing else.
pub proof fn lemma_target_dir_layout(class: Class, root: Seq<char>)
    requires
        root.len() > 0,
        root.last() != '/',
    ensures
        class.target_dir(root) == root.push('/') + (decimal(class.repeats as nat).push('_')
            + class.label@),
{
    lemma_decimal_digits(class.repeats as nat);
    assert(class.dir_name()[0] == decimal(class.repeats as nat)[0]);
}

/// The state that the stages behind the choice of directories share.
#[derive(Debug, Clone, PartialEq, Eq)]
pub struct SharedState {
    /// The directory that holds the images to sort.
    pub input_dir: String,
    /// The root of the dataset.
    pub output_dir: String,
    /// Where trashed images are kept; without it they are only deleted.
    pub trash_dir: Option<String>,
    /// The classes, in the order in which they were added.
    pub classes: Vec<Class>,
    /// The text that every new caption starts with.
    pub prompt_prefill: Option<String>,
}

impl SharedState {
    /// The input and the output directory are not empty, every class is valid,
    /// and a prefix that is set is not empty.
    pub open spec fn wf(self) -> bool {
        &&& self.input_dir@.len() > 0
        &&& self.output_dir@.len() > 0
        &&& forall|i: int| 0 <= i < self.classes@.len() ==> (#[trigger] self.classes@[i]).valid()
        &&& match self.prompt_prefill {
            Some(p) => p@.len() > 0,
            None => true,
        }
    }

    /// Whether labeling may begin: there is a class to assign to.
    pub open spec fn spec_can_label(self) -> bool {
        self.classes@.len() > 0
    }

    /// Whether labeling may begin: there is a class to assign to.
    pub fn can_label(&self) -> (r: bool)
        ensures
            r == self.spec_can_label(),
    {
        self.classes.len() > 0
    }

    /// The text that a new caption starts with: the prefix, or nothing.
    pub open spec fn seed(self) -> Seq<char> {
        match self.prompt_prefill {
            Some(p) => p@,
            None => Seq::empty(),
        }
    }

    /// The text that a new caption starts with.
    pub fn caption_seed(&self) -> (r: String)
        ensures
            r@ == self.seed(),
    {
        match &self.prompt_prefill {
            Some(p) => p.clone(),
            None => String::new(),
        }
    }

    /// The directory of every class, in the order of the classes.
    pub open spec fn target_dirs(self) -> Seq<Seq<char>> {
        Seq::new(self.classes@.len(), |i: int| self.classes@[i].target_dir(self.output_dir@))
    }

    /// The directory of every class, in the order of the classes.
    pub fn class_dirs(&self) -> (r: Vec<String>)
        ensures
            texts(r@) == self.target_dirs(),
    {
        let mut r: Vec<String> = Vec::new();
        let mut i: usize = 0;
        while i < self.classes.len()
            invariant
                i <= self.classes@.len(),
                r@.len() == i,
                forall|j: int|
                    0 <= j < i ==> (#[trigger] r@[j])@ == self.classes@[j].target_dir(
                        self.output_dir@,
                    ),
            decreases self.classes@.len() - i,
        {
            r.push(self.classes[i].path(self.output_dir.clone()));
            i += 1;
        }
        assert(texts(r@) =~= self.target_dirs());
        r
    }
}

} // verus!
