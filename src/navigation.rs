//! The list of images being viewed and the cursor that moves over it.

use vstd::prelude::*;

verus! {

/// One move of the cursor.
#[derive(Clone, Copy, Debug, PartialEq, Eq, Structural)]
pub enum Step {
    Back,
    Forward,
}

/// What the viewer shows for the current frame.
pub enum Shown {
    /// The image at this path.
    Image(String),
    /// The list is empty: a "no image" placeholder.
    NoImage,
}

/// A cursor over a list of `len` items stands on an item, or at 0 when the
/// list is empty.
pub open spec fn index_in_range(len: nat, index: nat) -> bool {
    if len == 0 {
        index == 0
    } else {
        index < len
    }
}

/// The cursor after one step: it moves by one and stops at either end.
pub open spec fn step_index(len: nat, index: nat, step: Step) -> nat {
    match step {
        Step::Back => if index > 0 {
            (index - 1) as nat
        } else {
            index
        },
        Step::Forward => if index + 1 < len {
            index + 1
        } else {
            index
        },
    }
}

/// The cursor after a sequence of steps, taken first to last.
pub open spec fn run_steps(len: nat, index: nat, steps: Seq<Step>) -> nat
    decreases steps.len(),
{
    if steps.len() == 0 {
        index
    } else {
        run_steps(len, step_index(len, index, steps[0]), steps.drop_first())
    }
}

/// The step that a frame's keys ask for: Page-Up goes back, Page-Down goes
/// forward, and Page-Up wins when both are down.
pub open spec fn keys_step(page_up: bool, page_down: bool) -> Option<Step> {
    if page_up {
        Some(Step::Back)
    } else if page_down {
        Some(Step::Forward)
    } else {
        None
    }
}

/// The position of the first file whose path is `path`, or 0 when there is none.
pub open spec fn start_index(files: Seq<String>, path: Option<Seq<char>>) -> nat {
    match path {
        Some(p) => if exists|i: int| 0 <= i < files.len() && #[trigger] files[i]@ == p {
            (choose|i: int|
                0 <= i < files.len() && files[i]@ == p && forall|j: int|
                    0 <= j < i ==> #[trigger] files[j]@ != p) as nat
        } else {
            0
        },
        None => 0,
    }
}

/// A step never leaves the list: going back from the first file, or forward
/// from the last, leaves the cursor where it is.
pub proof fn lemma_steps_stop_at_ends(len: nat)
    ensures
        step_index(len, 0, Step::Back) == 0,
        len > 0 ==> step_index(len, (len - 1) as nat, Step::Forward) == len - 1,
{
}

/// From any cursor in range, every sequence of steps leaves the cursor in
/// range; on an empty list it stays at 0.
pub proof fn lemma_steps_stay_in_range(len: nat, index: nat, steps: Seq<Step>)
    requires
        index_in_range(len, index),
    ensures
        index_in_range(len, run_steps(len, index, steps)),
    decreases steps.len(),
{
    if steps.len() > 0 {
        lemma_steps_stay_in_range(len, step_index(len, index, steps[0]), steps.drop_first());
    }
}

/// The step asked for by the keys of one frame.
pub fn step_for_keys(page_up: bool, page_down: bool) -> (r: Option<Step>)
    ensures
        r == keys_step(page_up, page_down),
{
    if page_up {
        Some(Step::Back)
    } else if page_down {
        Some(Step::Forward)
    } else {
        None
    }
}

/// The viewer's state: the image files and the index of the one shown.
pub struct ImageViewerApp {
    image_files: Vec<String>,
    current_index: usize,
}

impl ImageViewerApp {
    /// The files, in viewing order.
    pub closed spec fn files(&self) -> Seq<String> {
        self.image_files@
    }

    /// The index of the file shown.
    pub closed spec fn index(&self) -> nat {
        self.current_index as nat
    }

    #[verifier::type_invariant]
    spec fn cursor_in_range(&self) -> bool {
        index_in_range(self.image_files@.len(), self.current_index as nat)
    }

    /// A viewer over `image_files`, showing the first.
    pub fn new(image_files: Vec<String>) -> (r: Self)
        ensures
            r.files() == image_files@,
            r.index() == 0,
            index_in_range(r.files().len(), r.index()),
    {
        Self { image_files, current_index: 0 }
    }

    /// A viewer over `image_files`, showing the first file whose path is
    /// `initial`, or the first file when none is.
    pub fn open_at(image_files: Vec<String>, initial: Option<String>) -> (r: Self)
        ensures
            r.files() == image_files@,
            r.index() == start_index(
                image_files@,
                match initial {
                    Some(p) => Some(p@),
                    None => None,
                },
            ),
            index_in_range(r.files().len(), r.index()),
    {
        let mut index: usize = 0;
        match &initial {
            Some(p) => {
                let mut found = false;
                let mut i: usize = 0;
                while i < image_files.len()
                    invariant
                        i <= image_files@.len(),
                        found ==> index < i && image_files@[index as int]@ == p@,
                        !found ==> index == 0,
                        forall|j: int|
                            0 <= j < i && !(found && j >= index) ==> #[trigger] image_files@[j]@
                                != p@,
                    decreases image_files.len() - i,
                {
                    if !found && image_files[i] == *p {
                        index = i;
                        found = true;
                    }
                    i = i + 1;
                }
                proof {
                    let files = image_files@;
                    if exists|k: int| 0 <= k < files.len() && #[trigger] files[k]@ == p@ {
                        let c = choose|k: int|
                            0 <= k < files.len() && files[k]@ == p@ && forall|j: int|
                                0 <= j < k ==> #[trigger] files[j]@ != p@;
                        assert(found);
                        assert(index == c);
                    }
                }
            },
            None => {},
        }
        Self { image_files, current_index: index }
    }

    /// Moves the cursor one file back, unless it is on the first.
    pub fn step_back(&mut self)
        ensures
            final(self).files() == old(self).files(),
            final(self).index() == step_index(old(self).files().len(), old(self).index(), Step::Back),
            index_in_range(final(self).files().len(), final(self).index()),
    {
        proof { use_type_invariant(&*self); }
        if self.current_index > 0 {
            self.current_index = self.current_index - 1;
        }
    }

    /// Moves the cursor one file forward, unless it is on the last.
    pub fn step_forward(&mut self)
        ensures
            final(self).files() == old(self).files(),
            final(self).index() == step_index(
                old(self).files().len(),
                old(self).index(),
                Step::Forward,
            ),
            index_in_range(final(self).files().len(), final(self).index()),
    {
        proof { use_type_invariant(&*self); }
        if self.image_files.len() > 0 && self.current_index < self.image_files.len() - 1 {
            self.current_index = self.current_index + 1;
        }
    }

    /// The path of the file shown, or `None` when the list is empty.
    pub fn current_image(&self) -> (r: Option<&String>)
        ensures
            self.files().len() == 0 ==> r is None,
            self.files().len() > 0 ==> r == Some(&self.files()[self.index() as int]),
    {
        proof { use_type_invariant(self); }
        if self.current_index < self.image_files.len() {
            Some(&self.image_files[self.current_index])
        } else {
            None
        }
    }

    /// One frame: takes the step that the keys ask for, then says what to show.
    pub fn update(&mut self, page_up: bool, page_down: bool) -> (r: Shown)
        ensures
            final(self).files() == old(self).files(),
            final(self).index() == match keys_step(page_up, page_down) {
                Some(s) => step_index(old(self).files().len(), old(self).index(), s),
                None => old(self).index(),
            },
            match r {
                Shown::Image(p) => {
                    &&& final(self).files().len() > 0
                    &&& p@ == final(self).files()[final(self).index() as int]@
                },
                Shown::NoImage => final(self).files().len() == 0,
            },
            index_in_range(final(self).files().len(), final(self).index()),
    {
        match step_for_keys(page_up, page_down) {
            Some(Step::Back) => self.step_back(),
            Some(Step::Forward) => self.step_forward(),
            None => {},
        }
        proof { use_type_invariant(&*self); }
        match self.current_image() {
            Some(p) => Shown::Image(p.clone()),
            None => Shown::NoImage,
        }
    }
}

} // verus!
