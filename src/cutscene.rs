use vstd::prelude::*;

verus! {

/// One line of a scripted scene and the pause after it.
struct CutscenePart {
    msg: String,
    wait_millis: u64,
}

/// A scripted sequence of messages, each followed by a pause.
pub struct Cutscene {
    data: Vec<CutscenePart>,
}

impl View for Cutscene {
    type V = Seq<(Seq<char>, nat)>;

    closed spec fn view(&self) -> Seq<(Seq<char>, nat)> {
        self.data@.map_values(|p: CutscenePart| (p.msg@, p.wait_millis as nat))
    }
}

impl Cutscene {
    /// A scene with no lines.
    pub fn new() -> (r: Cutscene)
        ensures
            r@ == Seq::<(Seq<char>, nat)>::empty(),
    {
        Cutscene { data: Vec::new() }
    }

    /// Appends a line shown for `wait_millis` milliseconds.
    pub fn add(&mut self, msg: &str, wait_millis: u16)
        ensures
            final(self)@ == old(self)@.push((msg@, wait_millis as nat)),
    {
        self.data.push(CutscenePart { msg: msg.to_owned(), wait_millis: wait_millis as u64 });
        assert(self@ =~= old(self)@.push((msg@, wait_millis as nat)));
    }

    /// The number of lines.
    pub fn len(&self) -> (r: usize)
        ensures
            r == self@.len(),
    {
        self.data.len()
    }

    /// The text of line `i`.
    pub fn message(&self, i: usize) -> (r: &String)
        requires
            i < self@.len(),
        ensures
            r@ == self@[i as int].0,
    {
        &self.data[i].msg
    }

    /// The pause after line `i`, in milliseconds.
    pub fn wait_millis(&self, i: usize) -> (r: u64)
        requires
            i < self@.len(),
        ensures
            r == self@[i as int].1,
    {
        self.data[i].wait_millis
    }

    /// A second scene with the same lines.
    pub fn duplicate(&self) -> (r: Cutscene)
        ensures
            r@ == self@,
    {
        let mut data: Vec<CutscenePart> = Vec::new();
        let mut i: usize = 0;
        while i < self.data.len()
            invariant
                i <= self.data@.len(),
                data@.len() == i,
                forall|j: int|
                    0 <= j < i ==> data@[j].msg@ == self.data@[j].msg@ && data@[j].wait_millis
                        == self.data@[j].wait_millis,
            decreases self.data@.len() - i,
        {
            let part = &self.data[i];
            data.push(CutscenePart { msg: part.msg.clone(), wait_millis: part.wait_millis });
            i = i + 1;
        }
        let r = Cutscene { data };
        assert(r@ =~= self@);
        r
    }
}

} // verus!
