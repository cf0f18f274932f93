use vstd::prelude::*;

verus! {

/// Whether `u` is a Unicode scalar value: a code point outside the surrogate
/// block and no larger than the last Unicode code point.
pub open spec fn is_scalar_value(u: int) -> bool {
    (0 <= u < 0xD800) || (0xE000 <= u <= 0x10FFFF)
}

/// The characters whose code points lie in `lo..=hi` and are valid scalar
/// values, in increasing code-point order. Code points in the range that are
/// not scalar values contribute nothing.
pub open spec fn range_pool(lo: int, hi: int) -> Seq<char>
    decreases hi + 1 - lo,
{
    if lo > hi || lo < 0 {
        Seq::empty()
    } else if is_scalar_value(lo) {
        seq![(lo as u32) as char] + range_pool(lo + 1, hi)
    } else {
        range_pool(lo + 1, hi)
    }
}

/// Relies on char::from_u32: it returns the character with code point `u`,
/// and `None` exactly when `u` is a surrogate or lies beyond Unicode.
pub assume_specification[ char::from_u32 ](u: u32) -> (r: Option<char>)
    ensures
        r is Some <==> is_scalar_value(u as int),
        r matches Some(c) ==> c == u as char && c as u32 == u,
;

/// Collects the characters for the valid scalar values in `lo..=hi`,
/// skipping code points that are not scalar values.
fn range_chars(lo: u32, hi: u32) -> (r: Vec<char>)
    requires
        lo <= hi,
        hi < u32::MAX,
    ensures
        r@ == range_pool(lo as int, hi as int),
{
    let mut chars: Vec<char> = Vec::new();
    let mut i: u32 = lo;
    while i <= hi
        invariant
            lo <= i,
            i <= hi + 1,
            hi < u32::MAX,
            chars@ + range_pool(i as int, hi as int) == range_pool(lo as int, hi as int),
        decreases hi + 1 - i,
    {
        match char::from_u32(i) {
            Some(c) => {
                chars.push(c);
            },
            None => {},
        }
        i = i + 1;
    }
    chars
}

/// A named category of characters that the renderer can draw from.
///
/// `Halloween` and `Thanksgiving` share one code-point range, which also
/// overlaps the range used for `NewYear`; the catalog reproduces that
/// duplication deliberately, since it is the published behaviour, even though
/// the shared range does not hold symbols specific to either holiday.
pub enum Theme {
    All,
    Lower,
    Upper,
    Numbers,
    Letters,
    Smileys,
    Food,
    Animals,
    Ascii,
    Christmas,
    Easter,
    Halloween,
    NewYear,
    Thanksgiving,
    Valentine,
}

pub open spec fn lower_pool() -> Seq<char> {
    range_pool(0x61, 0x7A)
}

pub open spec fn upper_pool() -> Seq<char> {
    range_pool(0x41, 0x5A)
}

pub open spec fn numbers_pool() -> Seq<char> {
    range_pool(0x30, 0x39)
}

pub open spec fn letters_pool() -> Seq<char> {
    lower_pool() + upper_pool()
}

pub open spec fn smileys_pool() -> Seq<char> {
    range_pool(0x1F600, 0x1F64F)
}

pub open spec fn food_pool() -> Seq<char> {
    range_pool(0x1F300, 0x1F35F)
}

pub open spec fn animals_pool() -> Seq<char> {
    range_pool(0x1F400, 0x1F43F)
}

pub open spec fn ascii_pool() -> Seq<char> {
    range_pool(0x20, 0x7E)
}

pub open spec fn christmas_pool() -> Seq<char> {
    seq![
        '\u{1F384}',
        '\u{1F385}',
        '\u{1F936}',
        '\u{1F381}',
        '\u{1F98C}',
        '\u{1F9E6}',
        '\u{1F514}',
        '\u{1F3B6}',
        '\u{1F3B5}',
    ]
}

pub open spec fn easter_pool() -> Seq<char> {
    seq![
        '\u{1F430}',
        '\u{1F95A}',
        '\u{1F423}',
        '\u{1F424}',
        '\u{1F425}',
        '\u{1F407}',
        '\u{1F337}',
        '\u{1F338}',
        '\u{1F33C}',
        '\u{1F33B}',
        '\u{1F33A}',
        '\u{1F339}',
        '\u{1F940}',
        '\u{1F331}',
        '\u{1F33F}',
        '\u{1F340}',
        '\u{1F343}',
        '\u{1F342}',
        '\u{1F341}',
    ]
}

pub open spec fn halloween_pool() -> Seq<char> {
    range_pool(0x1F383, 0x1F3C6)
}

pub open spec fn newyear_pool() -> Seq<char> {
    range_pool(0x1F384, 0x1F3C6)
}

pub open spec fn thanksgiving_pool() -> Seq<char> {
    range_pool(0x1F383, 0x1F3C6)
}

pub open spec fn valentine_pool() -> Seq<char> {
    range_pool(0x1F48C, 0x1F49F)
}

/// The `All` pool is the concatenation of the thirteen primitive pools, in a
/// fixed order; `Letters` is not among them, since its characters already
/// appear through `Lower` and `Upper`.
pub open spec fn all_pool() -> Seq<char> {
    lower_pool() + upper_pool() + numbers_pool() + smileys_pool() + food_pool() + animals_pool()
        + ascii_pool() + christmas_pool() + easter_pool() + halloween_pool() + newyear_pool()
        + thanksgiving_pool() + valentine_pool()
}

/// The drawing pool of each theme.
pub open spec fn theme_pool(theme: Theme) -> Seq<char> {
    match theme {
        Theme::All => all_pool(),
        Theme::Lower => lower_pool(),
        Theme::Upper => upper_pool(),
        Theme::Numbers => numbers_pool(),
        Theme::Letters => letters_pool(),
        Theme::Smileys => smileys_pool(),
        Theme::Food => food_pool(),
        Theme::Animals => animals_pool(),
        Theme::Ascii => ascii_pool(),
        Theme::Christmas => christmas_pool(),
        Theme::Easter => easter_pool(),
        Theme::Halloween => halloween_pool(),
        Theme::NewYear => newyear_pool(),
        Theme::Thanksgiving => thanksgiving_pool(),
        Theme::Valentine => valentine_pool(),
    }
}

/// `All` and `Letters` are built from the other themes; the rank orders the
/// recursion in `load_theme`.
pub open spec fn theme_rank(theme: Theme) -> int {
    match theme {
        Theme::All => 1,
        Theme::Letters => 1,
        _ => 0,
    }
}

/// Builds the drawing pool of `theme`: exactly the characters of
/// `theme_pool(theme)`, in that order.
pub fn load_theme(theme: Theme) -> (chars: Vec<char>)
    ensures
        chars@ == theme_pool(theme),
    decreases theme_rank(theme),
{
    let mut chars: Vec<char> = Vec::new();
    match theme {
        Theme::All => {
            let mut part = load_theme(Theme::Lower);
            chars.append(&mut part);
            let mut part = load_theme(Theme::Upper);
            chars.append(&mut part);
            let mut part = load_theme(Theme::Numbers);
            chars.append(&mut part);
            let mut part = load_theme(Theme::Smileys);
            chars.append(&mut part);
            let mut part = load_theme(Theme::Food);
            chars.append(&mut part);
            let mut part = load_theme(Theme::Animals);
            chars.append(&mut part);
            let mut part = load_theme(Theme::Ascii);
            chars.append(&mut part);
            let mut part = load_theme(Theme::Christmas);
            chars.append(&mut part);
            let mut part = load_theme(Theme::Easter);
            chars.append(&mut part);
            let mut part = load_theme(Theme::Halloween);
            chars.append(&mut part);
            let mut part = load_theme(Theme::NewYear);
            chars.append(&mut part);
            let mut part = load_theme(Theme::Thanksgiving);
            chars.append(&mut part);
            let mut part = load_theme(Theme::Valentine);
            chars.append(&mut part);
            assert(chars@ =~= all_pool());
        },
        Theme::Lower => {
            chars = range_chars(0x61, 0x7A);
        },
        Theme::Upper => {
            chars = range_chars(0x41, 0x5A);
        },
        Theme::Numbers => {
            chars = range_chars(0x30, 0x39);
        },
        Theme::Letters => {
            let mut part = load_theme(Theme::Lower);
            chars.append(&mut part);
            let mut part = load_theme(Theme::Upper);
            chars.append(&mut part);
            assert(chars@ =~= letters_pool());
        },
        Theme::Smileys => {
            chars = range_chars(0x1F600, 0x1F64F);
        },
        Theme::Food => {
            chars = range_chars(0x1F300, 0x1F35F);
        },
        Theme::Animals => {
            chars = range_chars(0x1F400, 0x1F43F);
        },
        Theme::Ascii => {
            chars = range_chars(0x20, 0x7E);
        },
        Theme::Christmas => {
            chars.push('\u{1F384}');
            chars.push('\u{1F385}');
            chars.push('\u{1F936}');
            chars.push('\u{1F381}');
            chars.push('\u{1F98C}');
            chars.push('\u{1F9E6}');
            chars.push('\u{1F514}');
            chars.push('\u{1F3B6}');
            chars.push('\u{1F3B5}');
            assert(chars@ =~= christmas_pool());
        },
        Theme::Easter => {
            chars.push('\u{1F430}');
            chars.push('\u{1F95A}');
            chars.push('\u{1F423}');
            chars.push('\u{1F424}');
            chars.push('\u{1F425}');
            chars.push('\u{1F407}');
            chars.push('\u{1F337}');
            chars.push('\u{1F338}');
            chars.push('\u{1F33C}');
            chars.push('\u{1F33B}');
            chars.push('\u{1F33A}');
            chars.push('\u{1F339}');
            chars.push('\u{1F940}');
            chars.push('\u{1F331}');
            chars.push('\u{1F33F}');
            chars.push('\u{1F340}');
            chars.push('\u{1F343}');
            chars.push('\u{1F342}');
            chars.push('\u{1F341}');
            assert(chars@ =~= easter_pool());
        },
        Theme::Halloween => {
            chars = range_chars(0x1F383, 0x1F3C6);
        },
        Theme::NewYear => {
            chars = range_chars(0x1F384, 0x1F3C6);
        },
        Theme::Thanksgiving => {
            chars = range_chars(0x1F383, 0x1F3C6);
        },
        Theme::Valentine => {
            chars = range_chars(0x1F48C, 0x1F49F);
        },
    }
    chars
}

/// One catalog entry: a theme's lookup name together with its drawing pool.
pub struct ThemeInfo {
    pub name: String,
    pub chars: Vec<char>,
}

impl ThemeInfo {
    pub fn new(name: String, chars: Vec<char>) -> (r: Self)
        ensures
            r.name == name,
            r.chars == chars,
    {
        Self { name, chars }
    }
}

/// The themes of the catalog, in catalog order.
pub open spec fn catalog_themes() -> Seq<Theme> {
    seq![
        Theme::All,
        Theme::Lower,
        Theme::Upper,
        Theme::Numbers,
        Theme::Letters,
        Theme::Smileys,
        Theme::Food,
        Theme::Animals,
        Theme::Ascii,
        Theme::Christmas,
        Theme::Easter,
        Theme::Halloween,
        Theme::NewYear,
        Theme::Thanksgiving,
        Theme::Valentine,
    ]
}

/// The lookup names of the catalog, in catalog order.
pub open spec fn catalog_names() -> Seq<Seq<char>> {
    seq![
        "all"@,
        "lower"@,
        "upper"@,
        "numbers"@,
        "letters"@,
        "smileys"@,
        "food"@,
        "animals"@,
        "ascii"@,
        "christmas"@,
        "easter"@,
        "halloween"@,
        "newyear"@,
        "thanksgiving"@,
        "valentine"@,
    ]
}

/// Builds the full catalog: one entry per theme, in catalog order, each
/// holding the theme's name and its drawing pool.
pub fn init_themes() -> (themes: Vec<ThemeInfo>)
    ensures
        themes@.len() == catalog_names().len(),
        forall|i: int|
            0 <= i < themes@.len() ==> #[trigger] themes@[i].name@ == catalog_names()[i],
        forall|i: int|
            0 <= i < themes@.len() ==> #[trigger] themes@[i].chars@ == theme_pool(
                catalog_themes()[i],
            ),
{
    let mut themes: Vec<ThemeInfo> = Vec::new();

    themes.push(ThemeInfo::new("all".to_owned(), load_theme(Theme::All)));
    themes.push(ThemeInfo::new("lower".to_owned(), load_theme(Theme::Lower)));
    themes.push(ThemeInfo::new("upper".to_owned(), load_theme(Theme::Upper)));
    themes.push(ThemeInfo::new("numbers".to_owned(), load_theme(Theme::Numbers)));
    themes.push(ThemeInfo::new("letters".to_owned(), load_theme(Theme::Letters)));
    themes.push(ThemeInfo::new("smileys".to_owned(), load_theme(Theme::Smileys)));
    themes.push(ThemeInfo::new("food".to_owned(), load_theme(Theme::Food)));
    themes.push(ThemeInfo::new("animals".to_owned(), load_theme(Theme::Animals)));
    themes.push(ThemeInfo::new("ascii".to_owned(), load_theme(Theme::Ascii)));
    themes.push(ThemeInfo::new("christmas".to_owned(), load_theme(Theme::Christmas)));
    themes.push(ThemeInfo::new("easter".to_owned(), load_theme(Theme::Easter)));
    themes.push(ThemeInfo::new("halloween".to_owned(), load_theme(Theme::Halloween)));
    themes.push(ThemeInfo::new("newyear".to_owned(), load_theme(Theme::NewYear)));
    themes.push(ThemeInfo::new("thanksgiving".to_owned(), load_theme(Theme::Thanksgiving)));
    themes.push(ThemeInfo::new("valentine".to_owned(), load_theme(Theme::Valentine)));

    themes
}

/// A user-defined theme as a configuration layer would hold it. The verified
/// library only builds the default value; serialized forms live outside it.
pub struct CustomTheme {
    pub name: String,
    pub chars: Vec<char>,
}

impl Default for CustomTheme {
    /// A fresh custom theme: a placeholder name over the full ASCII pool.
    fn default() -> (r: Self)
        ensures
            r.name@ == "New Theme"@,
            r.chars@ == ascii_pool(),
    {
        Self { name: "New Theme".to_owned(), chars: load_theme(Theme::Ascii) }
    }
}

/// When every code point of `lo..=hi` is a valid scalar value, the range
/// pool holds exactly one character per code point, in order.
pub proof fn lemma_range_pool_all_valid(lo: int, hi: int)
    requires
        0 <= lo,
        lo <= hi + 1,
        forall|u: int| lo <= u <= hi ==> is_scalar_value(u),
    ensures
        range_pool(lo, hi).len() == hi + 1 - lo,
        forall|i: int|
            0 <= i < hi + 1 - lo ==> range_pool(lo, hi)[i] == ((lo + i) as u32) as char,
    decreases hi + 1 - lo,
{
    if lo <= hi {
        assert(is_scalar_value(lo));
        lemma_range_pool_all_valid(lo + 1, hi);
    }
}

/// The exact length of every pool.
pub proof fn lemma_pool_lengths()
    ensures
        lower_pool().len() == 26,
        upper_pool().len() == 26,
        numbers_pool().len() == 10,
        letters_pool().len() == 52,
        smileys_pool().len() == 80,
        food_pool().len() == 96,
        animals_pool().len() == 64,
        ascii_pool().len() == 95,
        christmas_pool().len() == 9,
        easter_pool().len() == 19,
        halloween_pool().len() == 68,
        newyear_pool().len() == 67,
        thanksgiving_pool().len() == 68,
        valentine_pool().len() == 20,
        all_pool().len() == 648,
{
    lemma_range_pool_all_valid(0x61, 0x7A);
    lemma_range_pool_all_valid(0x41, 0x5A);
    lemma_range_pool_all_valid(0x30, 0x39);
    lemma_range_pool_all_valid(0x1F600, 0x1F64F);
    lemma_range_pool_all_valid(0x1F300, 0x1F35F);
    lemma_range_pool_all_valid(0x1F400, 0x1F43F);
    lemma_range_pool_all_valid(0x20, 0x7E);
    lemma_range_pool_all_valid(0x1F383, 0x1F3C6);
    lemma_range_pool_all_valid(0x1F384, 0x1F3C6);
    lemma_range_pool_all_valid(0x1F48C, 0x1F49F);
}

/// Every theme's drawing pool is non-empty.
pub proof fn lemma_theme_pool_nonempty(theme: Theme)
    ensures
        theme_pool(theme).len() > 0,
{
    lemma_pool_lengths();
}

/// Every entry of the catalog built by `init_themes` carries a non-empty
/// drawing pool.
pub proof fn lemma_catalog_pools_nonempty(themes: Seq<ThemeInfo>)
    requires
        themes.len() == catalog_names().len(),
        forall|i: int|
            0 <= i < themes.len() ==> #[trigger] themes[i].chars@ == theme_pool(
                catalog_themes()[i],
            ),
    ensures
        forall|i: int| 0 <= i < themes.len() ==> #[trigger] themes[i].chars@.len() > 0,
{
    assert forall|i: int| 0 <= i < themes.len() implies #[trigger] themes[i].chars@.len() > 0 by {
        lemma_theme_pool_nonempty(catalog_themes()[i]);
    }
}

/// The `All` pool's length is the sum of the lengths of its thirteen
/// constituent pools, and the `Letters` pool's length is the sum of the
/// `Lower` and `Upper` pool lengths.
pub proof fn lemma_composite_pool_lengths()
    ensures
        all_pool().len() == lower_pool().len() + upper_pool().len() + numbers_pool().len()
            + smileys_pool().len() + food_pool().len() + animals_pool().len() + ascii_pool().len()
            + christmas_pool().len() + easter_pool().len() + halloween_pool().len()
            + newyear_pool().len() + thanksgiving_pool().len() + valentine_pool().len(),
        letters_pool().len() == lower_pool().len() + upper_pool().len(),
{
}

/// Pool construction is deterministic: two pools built for the same theme
/// agree element for element.
pub proof fn lemma_pool_construction_deterministic(theme: Theme, first: Seq<char>, second: Seq<char>)
    requires
        first == theme_pool(theme),
        second == theme_pool(theme),
    ensures
        first.len() == second.len(),
        forall|i: int| 0 <= i < first.len() ==> first[i] == second[i],
{
}

/// The fifteen catalog names are pairwise distinct.
pub proof fn lemma_catalog_names_distinct()
    ensures
        forall|i: int, j: int|
            0 <= i < j < catalog_names().len() ==> catalog_names()[i] != catalog_names()[j],
{
    reveal_strlit("all");
    reveal_strlit("lower");
    reveal_strlit("upper");
    reveal_strlit("numbers");
    reveal_strlit("letters");
    reveal_strlit("smileys");
    reveal_strlit("food");
    reveal_strlit("animals");
    reveal_strlit("ascii");
    reveal_strlit("christmas");
    reveal_strlit("easter");
    reveal_strlit("halloween");
    reveal_strlit("newyear");
    reveal_strlit("thanksgiving");
    reveal_strlit("valentine");
    assert(catalog_names()[0] == "all"@);
    assert(catalog_names()[1] == "lower"@);
    assert(catalog_names()[2] == "upper"@);
    assert(catalog_names()[3] == "numbers"@);
    assert(catalog_names()[4] == "letters"@);
    assert(catalog_names()[5] == "smileys"@);
    assert(catalog_names()[6] == "food"@);
    assert(catalog_names()[7] == "animals"@);
    assert(catalog_names()[8] == "ascii"@);
    assert(catalog_names()[9] == "christmas"@);
    assert(catalog_names()[10] == "easter"@);
    assert(catalog_names()[11] == "halloween"@);
    assert(catalog_names()[12] == "newyear"@);
    assert(catalog_names()[13] == "thanksgiving"@);
    assert(catalog_names()[14] == "valentine"@);
    assert forall|i: int, j: int|
        0 <= i < j < catalog_names().len() implies catalog_names()[i] != catalog_names()[j] by {
        let a = catalog_names()[i];
        let b = catalog_names()[j];
        assert(a.len() != b.len() || a[0] != b[0] || a[1] != b[1]);
    }
}

} // verus!
