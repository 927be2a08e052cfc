//! The disallow filter: exact comparison of a normalised URL with configured origins.
use vstd::prelude::*;

verus! {

/// The origins that are never fetched, in normalised form.
pub const DISALLOWED_URLS: [&'static str; 6] = [
    "https://www.reddit.com",
    "https://x.com",
    "https://www.twitter.com",
    "https://www.instagram.com",
    "https://www.youtube.com",
    "https://www.tiktok.com",
];

/// A set of blocked origins, each in normalised form.
pub struct Blocklist {
    entries: Vec<String>,
}

impl View for Blocklist {
    type V = Seq<Seq<char>>;

    closed spec fn view(&self) -> Seq<Seq<char>> {
        self.entries@.map_values(|e: String| e@)
    }
}

impl Blocklist {
    /// A blocklist of the given origins.
    pub fn new(entries: Vec<String>) -> (r: Blocklist)
        ensures
            r@ == entries@.map_values(|e: String| e@),
    {
        Blocklist { entries }
    }

    /// The blocklist of the origins in `DISALLOWED_URLS`.
    pub fn standard() -> (r: Blocklist)
        ensures
            r@ == DISALLOWED_URLS@.map_values(|e: &str| e@),
    {
        let mut entries: Vec<String> = Vec::new();
        let mut i: usize = 0;
        while i < DISALLOWED_URLS.len()
            invariant
                i <= DISALLOWED_URLS@.len(),
                entries@.len() == i,
                forall|k: int| 0 <= k < i ==> #[trigger] entries@[k]@ == DISALLOWED_URLS@[k]@,
            decreases DISALLOWED_URLS@.len() - i,
        {
            let entry: &str = DISALLOWED_URLS[i];
            assert(entry == DISALLOWED_URLS@[i as int]);
            entries.push(String::from_str(entry));
            i += 1;
        }
        assert(entries@.map_values(|e: String| e@) =~= DISALLOWED_URLS@.map_values(|e: &str| e@));
        Blocklist { entries }
    }

    /// Whether `normalized` is exactly one of the entries.
    pub fn contains(&self, normalized: &str) -> (r: bool)
        ensures
            r == self@.contains(normalized@),
    {
        let wanted = String::from_str(normalized);
        let mut i: usize = 0;
        while i < self.entries.len()
            invariant
                i <= self.entries@.len(),
                wanted@ == normalized@,
                forall|k: int| 0 <= k < i ==> self.entries@[k]@ != normalized@,
            decreases self.entries@.len() - i,
        {
            if self.entries[i] == wanted {
                assert(self@[i as int] == normalized@);
                return true;
            }
            i += 1;
        }
        assert(!self@.contains(normalized@)) by {
            if self@.contains(normalized@) {
                let k = choose|k: int| 0 <= k < self@.len() && self@[k] == normalized@;
                assert(self.entries@[k]@ == normalized@);
            }
        }
        false
    }
}

} // verus!
