//! A to-do item.

use vstd::prelude::*;

verus! {

/// A to-do item: a title, whether it is done, and possibly a description.
#[derive(Debug)]
pub struct Task {
    title: String,
    done: bool,
    desc: Option<String>,
}

/// What a task holds.
pub struct TaskView {
    pub title: Seq<char>,
    pub done: bool,
    pub desc: Option<Seq<char>>,
}

impl View for Task {
    type V = TaskView;

    closed spec fn view(&self) -> TaskView {
        TaskView { title: self.title@, done: self.done, desc: self.desc.deep_view() }
    }
}

impl Default for Task {
    /// An open task named "Untitled", without a description.
    fn default() -> (task: Task)
        ensures
            task@ == (TaskView { title: "Untitled"@, done: false, desc: None }),
    {
        Task { title: "Untitled".to_owned(), done: false, desc: None }
    }
}

impl Task {
    /// An open task with the given title and no description.
    pub fn new(title: &str) -> (task: Task)
        ensures
            task@ == (TaskView { title: title@, done: false, desc: None }),
    {
        Task { title: title.to_owned(), done: false, desc: None }
    }

    /// The title.
    pub fn title(&self) -> (title: &str)
        ensures
            title@ == self@.title,
    {
        self.title.as_str()
    }

    /// Whether the task is done.
    pub fn done(&self) -> (done: bool)
        ensures
            done == self@.done,
    {
        self.done
    }

    /// The description, if there is one.
    pub fn desc(&self) -> (desc: Option<&str>)
        ensures
            desc.deep_view() == self@.desc,
    {
        match &self.desc {
            Some(text) => Some(text.as_str()),
            None => None,
        }
    }
}

} // verus!
