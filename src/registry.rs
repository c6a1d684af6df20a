//! The preset registry: short text codes mapped to object-storage paths.
use vstd::prelude::*;
use vstd::string::*;

verus! {

/// The text view of a list of string pairs.
pub open spec fn pairs_view(v: Seq<(String, String)>) -> Seq<(Seq<char>, Seq<char>)> {
    v.map_values(|p: (String, String)| (p.0@, p.1@))
}

/// The value paired with `key`, taking the last pair that has it.
pub open spec fn lookup_in(pairs: Seq<(Seq<char>, Seq<char>)>, key: Seq<char>) -> Option<Seq<char>>
    decreases pairs.len(),
{
    if pairs.len() == 0 {
        None
    } else if pairs.last().0 == key {
        Some(pairs.last().1)
    } else {
        lookup_in(pairs.drop_last(), key)
    }
}

/// No key occurs twice.
pub open spec fn unique_keys(pairs: Seq<(Seq<char>, Seq<char>)>) -> bool {
    forall|i: int, j: int|
        0 <= i < pairs.len() && 0 <= j < pairs.len() && i != j ==> #[trigger] pairs[i].0 != #[trigger] pairs[j].0
}

/// Finds the value paired with `key`, last pair first.
pub fn find_pair(pairs: &Vec<(String, String)>, key: &str) -> (r: Option<String>)
    ensures
        match r {
            Some(v) => lookup_in(pairs_view(pairs@), key@) == Some(v@),
            None => lookup_in(pairs_view(pairs@), key@) is None,
        },
{
    let wanted = key.to_owned();
    let mut found: Option<String> = None;
    let mut i: usize = 0;
    while i < pairs.len()
        invariant
            i <= pairs@.len(),
            wanted@ == key@,
            match found {
                Some(v) => lookup_in(pairs_view(pairs@).take(i as int), key@) == Some(v@),
                None => lookup_in(pairs_view(pairs@).take(i as int), key@) is None,
            },
        decreases pairs@.len() - i,
    {
        let ghost prefix = pairs_view(pairs@).take(i as int);
        let ghost next = pairs_view(pairs@).take(i + 1);
        assert(next.drop_last() =~= prefix);
        if pairs[i].0 == wanted {
            found = Some(pairs[i].1.clone());
        }
        i = i + 1;
    }
    assert(pairs_view(pairs@).take(pairs@.len() as int) =~= pairs_view(pairs@));
    found
}

/// Short codes mapped to object paths. Built once; never gains or loses keys.
pub struct PresetRegistry {
    entries: Vec<(String, String)>,
}

impl View for PresetRegistry {
    type V = Seq<(Seq<char>, Seq<char>)>;

    closed spec fn view(&self) -> Seq<(Seq<char>, Seq<char>)> {
        pairs_view(self.entries@)
    }
}

impl PresetRegistry {
    /// Keys are unique.
    pub open spec fn wf(&self) -> bool {
        unique_keys(self@)
    }

    /// The object path registered under `key`.
    pub open spec fn path_of(&self, key: Seq<char>) -> Option<Seq<char>> {
        lookup_in(self@, key)
    }

    /// Whether `key` is registered.
    pub open spec fn has_key(&self, key: Seq<char>) -> bool {
        self.path_of(key) is Some
    }

    /// The object path registered under `key`, if any.
    pub fn get(&self, key: &str) -> (r: Option<String>)
        ensures
            match r {
                Some(v) => self.path_of(key@) == Some(v@),
                None => !self.has_key(key@),
            },
    {
        find_pair(&self.entries, key)
    }

    /// The registered keys, in registry order.
    pub fn keys(&self) -> (r: Vec<String>)
        ensures
            r@.len() == self@.len(),
            forall|i: int| 0 <= i < r@.len() ==> #[trigger] r@[i]@ == self@[i].0,
    {
        let mut keys: Vec<String> = Vec::new();
        let mut i: usize = 0;
        while i < self.entries.len()
            invariant
                i <= self.entries@.len(),
                keys@.len() == i,
                forall|j: int| 0 <= j < i ==> #[trigger] keys@[j]@ == self@[j].0,
            decreases self.entries@.len() - i,
        {
            keys.push(self.entries[i].0.clone());
            i = i + 1;
        }
        keys
    }

    /// Number of presets.
    pub fn len(&self) -> (r: usize)
        ensures
            r == self@.len(),
    {
        self.entries.len()
    }
}

/// The fixed registry of four menus.
pub open spec fn default_presets() -> Seq<(Seq<char>, Seq<char>)> {
    seq![
        ("menu1"@, "images/menu1.jpg"@),
        ("menu2"@, "images/menu2.jpg"@),
        ("menu3"@, "images/menu3.jpg"@),
        ("menu4"@, "images/menu4.jpg"@),
    ]
}

/// The registry the service runs with: `menuN -> images/menuN.jpg` for N in 1..=4.
pub fn load_presets() -> (r: PresetRegistry)
    ensures
        r@ == default_presets(),
        r.wf(),
{
    let mut entries: Vec<(String, String)> = Vec::new();
    entries.push((String::from_str("menu1"), String::from_str("images/menu1.jpg")));
    entries.push((String::from_str("menu2"), String::from_str("images/menu2.jpg")));
    entries.push((String::from_str("menu3"), String::from_str("images/menu3.jpg")));
    entries.push((String::from_str("menu4"), String::from_str("images/menu4.jpg")));
    let r = PresetRegistry { entries };
    proof {
        reveal_strlit("menu1");
        reveal_strlit("menu2");
        reveal_strlit("menu3");
        reveal_strlit("menu4");
        assert(r@ =~= default_presets());
        assert(r@[0].0[4] == '1' && r@[1].0[4] == '2' && r@[2].0[4] == '3' && r@[3].0[4] == '4');
    }
    r
}

} // verus!
