//! Challenges: the fixed identifiers a submission can name, and the collection
//! of challenge descriptions fetched from the backend.

use vstd::prelude::*;
use crate::fetchers::{is_fresh, send_step, Command, Method, Requestor};

verus! {

/// The backend that a collection talks to unless it is given another one.
pub const DEFAULT_BACKEND_URL: &'static str = "http://123.4.5.6:3000/";

/// Path of the challenge listing, relative to the backend's base URL.
pub const CHALLENGE_LIST_PATH: &'static str = "api/game/challenge";

/// What `get_instructions` returns when no challenge has the command asked for.
pub const NO_INSTRUCTIONS: &'static str = "No instructions found";

#[derive(Debug, Clone, Copy, PartialEq, Eq, Hash, Structural)]
pub enum Challenges {
    C2331,
    C2332,
    C2333,
    Unselected,
}

/// The challenges a user can pick, in order.
pub open spec fn selectable_challenges() -> Seq<Challenges> {
    seq![Challenges::C2331, Challenges::C2332, Challenges::C2333]
}

impl Challenges {
    /// The challenge's command, as the backend names it; "None" for no challenge.
    pub open spec fn label(self) -> Seq<char> {
        match self {
            Challenges::C2331 => "2331"@,
            Challenges::C2332 => "2332"@,
            Challenges::C2333 => "2333"@,
            Challenges::Unselected => "None"@,
        }
    }

    /// The variant's name, which is how the challenge is written in JSON bodies.
    pub open spec fn wire_label(self) -> Seq<char> {
        match self {
            Challenges::C2331 => "C2331"@,
            Challenges::C2332 => "C2332"@,
            Challenges::C2333 => "C2333"@,
            Challenges::Unselected => "None"@,
        }
    }

    /// The challenge after this one, going round; `Unselected` stays `Unselected`.
    pub open spec fn successor(self) -> Challenges {
        match self {
            Challenges::C2331 => Challenges::C2332,
            Challenges::C2332 => Challenges::C2333,
            Challenges::C2333 => Challenges::C2331,
            Challenges::Unselected => Challenges::Unselected,
        }
    }

    pub fn iter() -> (r: Vec<Challenges>)
        ensures
            r@ == selectable_challenges(),
    {
        let r = vec![Challenges::C2331, Challenges::C2332, Challenges::C2333];
        assert(r@ =~= selectable_challenges());
        r
    }

    fn _next(&self) -> (r: Challenges)
        ensures
            r == self.successor(),
    {
        match self {
            Challenges::C2331 => Challenges::C2332,
            Challenges::C2332 => Challenges::C2333,
            Challenges::C2333 => Challenges::C2331,
            Challenges::Unselected => Challenges::Unselected,
        }
    }

    pub fn to_string(&self) -> (r: String)
        ensures
            r@ == self.label(),
    {
        let s = match self {
            Challenges::C2331 => "2331",
            Challenges::C2332 => "2332",
            Challenges::C2333 => "2333",
            Challenges::Unselected => "None",
        };
        s.to_owned()
    }

    pub fn wire_name(&self) -> (r: String)
        ensures
            r@ == self.wire_label(),
    {
        let s = match self {
            Challenges::C2331 => "C2331",
            Challenges::C2332 => "C2332",
            Challenges::C2333 => "C2333",
            Challenges::Unselected => "None",
        };
        s.to_owned()
    }
}

impl Default for Challenges {
    fn default() -> (r: Challenges)
        ensures
            r == Challenges::C2332,
    {
        Challenges::C2332
    }
}

/// One challenge as the backend describes it.
#[derive(Debug, Clone)]
pub struct Challenge {
    pub name: String,
    pub command: String,
    pub table: String,
    /// Markdown instructions.
    pub doc: String,
}

/// Index of the first challenge whose command is `key`.
pub open spec fn first_with_command(items: Seq<Challenge>, key: Seq<char>, i: int) -> bool {
    &&& 0 <= i < items.len()
    &&& items[i].command@ == key
    &&& forall|j: int| 0 <= j < i ==> #[trigger] items[j].command@ != key
}

/// The instructions of the first challenge whose command is `key`, or the
/// fallback text when there is none.
pub open spec fn instructions_in(items: Seq<Challenge>, key: Seq<char>) -> Seq<char> {
    if exists|i: int| first_with_command(items, key, i) {
        let i = choose|i: int| first_with_command(items, key, i);
        items[i].doc@
    } else {
        NO_INSTRUCTIONS@
    }
}

/// The challenges known to the client, and the backend they come from.
#[derive(Debug, Clone)]
pub struct ChallengeCollection {
    pub items: Vec<Challenge>,
    /// Base URL of the backend, ending in `/`.
    pub url: String,
}

impl ChallengeCollection {
    /// An empty collection for the default backend.
    pub fn new() -> (r: ChallengeCollection)
        ensures
            r.items@.len() == 0,
            r.url@ == DEFAULT_BACKEND_URL@,
    {
        ChallengeCollection { items: Vec::new(), url: DEFAULT_BACKEND_URL.to_owned() }
    }

    /// An empty collection for the backend at `url`.
    pub fn with_url(url: &str) -> (r: ChallengeCollection)
        ensures
            r.items@.len() == 0,
            r.url@ == url@,
    {
        ChallengeCollection { items: Vec::new(), url: url.to_owned() }
    }

    /// A collection of `items` for the default backend.
    pub fn from_items(items: Vec<Challenge>) -> (r: ChallengeCollection)
        ensures
            r.items == items,
            r.url@ == DEFAULT_BACKEND_URL@,
    {
        ChallengeCollection { items, url: DEFAULT_BACKEND_URL.to_owned() }
    }

    /// The URL that lists the challenges.
    pub fn list_url(&self) -> (r: String)
        ensures
            r@ == self.url@ + CHALLENGE_LIST_PATH@,
    {
        let mut s = self.url.clone();
        s.append(CHALLENGE_LIST_PATH);
        s
    }

    /// The markdown instructions of `challenge`, or a fallback text when the
    /// collection holds no challenge with that command.
    pub fn get_instructions(&self, challenge: Challenges) -> (r: String)
        ensures
            r@ == instructions_in(self.items@, challenge.label()),
    {
        let key = challenge.to_string();
        self.instructions_for_command(key.as_str())
    }

    /// The markdown instructions of the first challenge whose command is
    /// `key`, or a fallback text when there is none.
    pub fn instructions_for_command(&self, key: &str) -> (r: String)
        ensures
            r@ == instructions_in(self.items@, key@),
    {
        let wanted = key.to_owned();
        let mut i: usize = 0;
        while i < self.items.len()
            invariant
                wanted@ == key@,
                i <= self.items@.len(),
                forall|j: int| 0 <= j < i ==> #[trigger] self.items@[j].command@ != wanted@,
            decreases self.items.len() - i,
        {
            if self.items[i].command == wanted {
                assert(first_with_command(self.items@, key@, i as int));
                let ghost k = choose|k: int| first_with_command(self.items@, key@, k);
                assert(k == i) by {
                    if k < i {
                        assert(self.items@[k].command@ != key@);
                    }
                    if k > i {
                        assert(self.items@[i as int].command@ != key@);
                    }
                }
                return self.items[i].doc.clone();
            }
            i += 1;
        }
        NO_INSTRUCTIONS.to_owned()
    }
}

impl Default for ChallengeCollection {
    fn default() -> (r: ChallengeCollection)
        ensures
            r.items@.len() == 0,
            r.url@ == DEFAULT_BACKEND_URL@,
    {
        ChallengeCollection::new()
    }
}

/// `r` is the sent, credentialed GET of the challenge list of the backend at `base`.
pub open spec fn is_list_request(r: Requestor, base: Seq<char>) -> bool {
    &&& r == send_step(Requestor { command: Command::Idle, request_in_flight: false, ..r })
    &&& is_fresh(Requestor { command: Command::Idle, request_in_flight: false, ..r })
    &&& r.url@ == base + CHALLENGE_LIST_PATH@
    &&& r.with_credentials
    &&& r.method == Method::Get
    &&& r.body is Empty
}

impl ChallengeCollection {
    /// A requestor that has sent the GET of the challenge list.
    pub fn fetch(&self) -> (r: Option<Requestor>)
        ensures
            r matches Some(q) && is_list_request(q, self.url@),
    {
        let url = self.list_url();
        let mut getter = Requestor::new_get(url.as_str(), true);
        getter.send();
        Some(getter)
    }
}

} // verus!
