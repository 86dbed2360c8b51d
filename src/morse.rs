use vstd::prelude::*;

verus! {

/// One line of the decode table: a sequence of marks (`.` and `-`) and the
/// token that it stands for.
pub struct MorseEntry {
    pub symbols: Vec<char>,
    pub token: Vec<char>,
}

/// The decode table: letters, umlauts, digits, punctuation and two prosigns.
pub open spec fn morse_entries() -> Seq<(Seq<char>, Seq<char>)> {
    seq![
        (seq!['.', '-'], seq!['A']),
        (seq!['.', '-', '.', '-'], seq!['Ä']),
        (seq!['-', '.', '.', '.'], seq!['B']),
        (seq!['-', '.', '-', '.'], seq!['C']),
        (seq!['-', '-', '-', '-'], seq!['C', 'H']),
        (seq!['-', '.', '.'], seq!['D']),
        (seq!['.'], seq!['E']),
        (seq!['.', '.', '-', '.'], seq!['F']),
        (seq!['-', '-', '.'], seq!['G']),
        (seq!['.', '.', '.', '.'], seq!['H']),
        (seq!['.', '.'], seq!['I']),
        (seq!['.', '-', '-', '-'], seq!['J']),
        (seq!['-', '.', '-'], seq!['K']),
        (seq!['.', '-', '.', '.'], seq!['L']),
        (seq!['-', '-'], seq!['M']),
        (seq!['-', '.'], seq!['N']),
        (seq!['-', '-', '-'], seq!['O']),
        (seq!['-', '-', '-', '.'], seq!['Ö']),
        (seq!['.', '-', '-', '.'], seq!['P']),
        (seq!['-', '-', '.', '-'], seq!['Q']),
        (seq!['.', '-', '.'], seq!['R']),
        (seq!['.', '.', '.'], seq!['S']),
        (seq!['-'], seq!['T']),
        (seq!['.', '.', '-'], seq!['U']),
        (seq!['.', '.', '-', '-'], seq!['Ü']),
        (seq!['.', '.', '.', '-'], seq!['V']),
        (seq!['.', '-', '-'], seq!['W']),
        (seq!['-', '.', '.', '-'], seq!['X']),
        (seq!['-', '.', '-', '-'], seq!['Y']),
        (seq!['-', '-', '.', '.'], seq!['Z']),
        (seq!['-', '-', '-', '-', '-'], seq!['0']),
        (seq!['.', '-', '-', '-', '-'], seq!['1']),
        (seq!['.', '.', '-', '-', '-'], seq!['2']),
        (seq!['.', '.', '.', '-', '-'], seq!['3']),
        (seq!['.', '.', '.', '.', '-'], seq!['4']),
        (seq!['.', '.', '.', '.', '.'], seq!['5']),
        (seq!['-', '.', '.', '.', '.'], seq!['6']),
        (seq!['-', '-', '.', '.', '.'], seq!['7']),
        (seq!['-', '-', '-', '.', '.'], seq!['8']),
        (seq!['-', '-', '-', '-', '.'], seq!['9']),
        (seq!['.', '-', '.', '-', '.'], seq!['+']),
        (seq!['-', '-', '.', '.', '-', '-'], seq![',']),
        (seq!['-', '.', '.', '.', '.', '-'], seq!['-']),
        (seq!['.', '-', '.', '-', '.', '-'], seq!['.']),
        (seq!['-', '.', '.', '-', '.'], seq!['/']),
        (seq!['-', '-', '-', '.', '.', '.'], seq![';']),
        (seq!['-', '.', '.', '.', '-'], seq!['=']),
        (seq!['.', '.', '-', '-', '.', '.'], seq!['?']),
        (seq!['.', '-', '-', '.', '-', '.'], seq!['@']),
        (seq!['.', '-', '.', '.', '.'], seq!['<', 'A', 'S', '>']),
        (seq!['.', '.', '.', '-', '.', '-'], seq!['<', 'S', 'K', '>']),
    ]
}

/// What a table holds, as pairs of mark sequence and token.
pub open spec fn entries_view(t: Seq<MorseEntry>) -> Seq<(Seq<char>, Seq<char>)> {
    t.map_values(|e: MorseEntry| (e.symbols@, e.token@))
}

/// The token of the first entry, at index `i` or later, whose marks equal `key`
/// exactly; `None` where there is none.
pub open spec fn lookup_from(entries: Seq<(Seq<char>, Seq<char>)>, key: Seq<char>, i: int) -> Option<
    Seq<char>,
>
    decreases entries.len() - i,
{
    if i < 0 || i >= entries.len() {
        None
    } else if entries[i].0 == key {
        Some(entries[i].1)
    } else {
        lookup_from(entries, key, i + 1)
    }
}

/// Exact-match lookup of `key` in `entries`.
pub open spec fn lookup(entries: Seq<(Seq<char>, Seq<char>)>, key: Seq<char>) -> Option<Seq<char>> {
    lookup_from(entries, key, 0)
}

/// The code of a mark sequence read as a binary number behind a leading one,
/// a dah being a one: distinct sequences have distinct codes.
pub open spec fn mark_code(s: Seq<char>) -> int {
    code_upto(s, s.len() as int)
}

/// The code of the first `n` marks of `s`.
pub open spec fn code_upto(s: Seq<char>, n: int) -> int
    decreases n,
{
    if n <= 0 {
        1
    } else {
        2 * code_upto(s, n - 1) + if s[n - 1] == '-' {
            1int
        } else {
            0int
        }
    }
}

/// The index in the decode table of the entry whose marks have code `c`.
pub open spec fn entry_index_of_code(c: int) -> int {
    if c == 5 {
        0
    } else if c == 21 {
        1
    } else if c == 24 {
        2
    } else if c == 26 {
        3
    } else if c == 31 {
        4
    } else if c == 12 {
        5
    } else if c == 2 {
        6
    } else if c == 18 {
        7
    } else if c == 14 {
        8
    } else if c == 16 {
        9
    } else if c == 4 {
        10
    } else if c == 23 {
        11
    } else if c == 13 {
        12
    } else if c == 20 {
        13
    } else if c == 7 {
        14
    } else if c == 6 {
        15
    } else if c == 15 {
        16
    } else if c == 30 {
        17
    } else if c == 22 {
        18
    } else if c == 29 {
        19
    } else if c == 10 {
        20
    } else if c == 8 {
        21
    } else if c == 3 {
        22
    } else if c == 9 {
        23
    } else if c == 19 {
        24
    } else if c == 17 {
        25
    } else if c == 11 {
        26
    } else if c == 25 {
        27
    } else if c == 27 {
        28
    } else if c == 28 {
        29
    } else if c == 63 {
        30
    } else if c == 47 {
        31
    } else if c == 39 {
        32
    } else if c == 35 {
        33
    } else if c == 33 {
        34
    } else if c == 32 {
        35
    } else if c == 48 {
        36
    } else if c == 56 {
        37
    } else if c == 60 {
        38
    } else if c == 62 {
        39
    } else if c == 42 {
        40
    } else if c == 115 {
        41
    } else if c == 97 {
        42
    } else if c == 85 {
        43
    } else if c == 50 {
        44
    } else if c == 120 {
        45
    } else if c == 49 {
        46
    } else if c == 76 {
        47
    } else if c == 90 {
        48
    } else if c == 40 {
        49
    } else if c == 69 {
        50
    } else {
        -1
    }
}

proof fn lemma_entry_code(i: int)
    requires
        0 <= i < morse_entries().len(),
    ensures
        entry_index_of_code(mark_code(morse_entries()[i].0)) == i,
{
    reveal_with_fuel(code_upto, 7);
    if i == 0 {
    } else if i == 1 {
    } else if i == 2 {
    } else if i == 3 {
    } else if i == 4 {
    } else if i == 5 {
    } else if i == 6 {
    } else if i == 7 {
    } else if i == 8 {
    } else if i == 9 {
    } else if i == 10 {
    } else if i == 11 {
    } else if i == 12 {
    } else if i == 13 {
    } else if i == 14 {
    } else if i == 15 {
    } else if i == 16 {
    } else if i == 17 {
    } else if i == 18 {
    } else if i == 19 {
    } else if i == 20 {
    } else if i == 21 {
    } else if i == 22 {
    } else if i == 23 {
    } else if i == 24 {
    } else if i == 25 {
    } else if i == 26 {
    } else if i == 27 {
    } else if i == 28 {
    } else if i == 29 {
    } else if i == 30 {
    } else if i == 31 {
    } else if i == 32 {
    } else if i == 33 {
    } else if i == 34 {
    } else if i == 35 {
    } else if i == 36 {
    } else if i == 37 {
    } else if i == 38 {
    } else if i == 39 {
    } else if i == 40 {
    } else if i == 41 {
    } else if i == 42 {
    } else if i == 43 {
    } else if i == 44 {
    } else if i == 45 {
    } else if i == 46 {
    } else if i == 47 {
    } else if i == 48 {
    } else if i == 49 {
    } else if i == 50 {
    } else {
    }
}

/// No two entries of the decode table have the same marks.
pub proof fn lemma_table_keys_distinct()
    ensures
        forall|i: int, j: int|
            0 <= i < j < morse_entries().len() ==> #[trigger] morse_entries()[i].0
                != #[trigger] morse_entries()[j].0,
{
    assert forall|i: int, j: int| 0 <= i < j < morse_entries().len() implies #[trigger] morse_entries()[i].0
        != #[trigger] morse_entries()[j].0 by {
        lemma_entry_code(i);
        lemma_entry_code(j);
    }
}

/// Decoding is exact-match only: a token found for `key` belongs to an entry
/// whose marks are `key` itself, and where none is found no entry has `key`.
pub proof fn lemma_lookup_exact(entries: Seq<(Seq<char>, Seq<char>)>, key: Seq<char>, i: int)
    requires
        0 <= i <= entries.len(),
    ensures
        match lookup_from(entries, key, i) {
            Some(t) => exists|j: int| i <= j < entries.len() && #[trigger] entries[j] == (key, t),
            None => forall|j: int| i <= j < entries.len() ==> #[trigger] entries[j].0 != key,
        },
    decreases entries.len() - i,
{
    if i < entries.len() {
        lemma_lookup_exact(entries, key, i + 1);
        if entries[i].0 == key {
            assert(entries[i] == (key, entries[i].1));
        }
    }
}

/// Builds the decode table.
pub fn get_morse_table() -> (r: Vec<MorseEntry>)
    ensures
        entries_view(r@) == morse_entries(),
        forall|i: int, j: int|
            0 <= i < j < r@.len() ==> #[trigger] r@[i].symbols@ != #[trigger] r@[j].symbols@,
{
    let t = vec![
        MorseEntry { symbols: vec!['.', '-'], token: vec!['A'] },
        MorseEntry { symbols: vec!['.', '-', '.', '-'], token: vec!['Ä'] },
        MorseEntry { symbols: vec!['-', '.', '.', '.'], token: vec!['B'] },
        MorseEntry { symbols: vec!['-', '.', '-', '.'], token: vec!['C'] },
        MorseEntry { symbols: vec!['-', '-', '-', '-'], token: vec!['C', 'H'] },
        MorseEntry { symbols: vec!['-', '.', '.'], token: vec!['D'] },
        MorseEntry { symbols: vec!['.'], token: vec!['E'] },
        MorseEntry { symbols: vec!['.', '.', '-', '.'], token: vec!['F'] },
        MorseEntry { symbols: vec!['-', '-', '.'], token: vec!['G'] },
        MorseEntry { symbols: vec!['.', '.', '.', '.'], token: vec!['H'] },
        MorseEntry { symbols: vec!['.', '.'], token: vec!['I'] },
        MorseEntry { symbols: vec!['.', '-', '-', '-'], token: vec!['J'] },
        MorseEntry { symbols: vec!['-', '.', '-'], token: vec!['K'] },
        MorseEntry { symbols: vec!['.', '-', '.', '.'], token: vec!['L'] },
        MorseEntry { symbols: vec!['-', '-'], token: vec!['M'] },
        MorseEntry { symbols: vec!['-', '.'], token: vec!['N'] },
        MorseEntry { symbols: vec!['-', '-', '-'], token: vec!['O'] },
        MorseEntry { symbols: vec!['-', '-', '-', '.'], token: vec!['Ö'] },
        MorseEntry { symbols: vec!['.', '-', '-', '.'], token: vec!['P'] },
        MorseEntry { symbols: vec!['-', '-', '.', '-'], token: vec!['Q'] },
        MorseEntry { symbols: vec!['.', '-', '.'], token: vec!['R'] },
        MorseEntry { symbols: vec!['.', '.', '.'], token: vec!['S'] },
        MorseEntry { symbols: vec!['-'], token: vec!['T'] },
        MorseEntry { symbols: vec!['.', '.', '-'], token: vec!['U'] },
        MorseEntry { symbols: vec!['.', '.', '-', '-'], token: vec!['Ü'] },
        MorseEntry { symbols: vec!['.', '.', '.', '-'], token: vec!['V'] },
        MorseEntry { symbols: vec!['.', '-', '-'], token: vec!['W'] },
        MorseEntry { symbols: vec!['-', '.', '.', '-'], token: vec!['X'] },
        MorseEntry { symbols: vec!['-', '.', '-', '-'], token: vec!['Y'] },
        MorseEntry { symbols: vec!['-', '-', '.', '.'], token: vec!['Z'] },
        MorseEntry { symbols: vec!['-', '-', '-', '-', '-'], token: vec!['0'] },
        MorseEntry { symbols: vec!['.', '-', '-', '-', '-'], token: vec!['1'] },
        MorseEntry { symbols: vec!['.', '.', '-', '-', '-'], token: vec!['2'] },
        MorseEntry { symbols: vec!['.', '.', '.', '-', '-'], token: vec!['3'] },
        MorseEntry { symbols: vec!['.', '.', '.', '.', '-'], token: vec!['4'] },
        MorseEntry { symbols: vec!['.', '.', '.', '.', '.'], token: vec!['5'] },
        MorseEntry { symbols: vec!['-', '.', '.', '.', '.'], token: vec!['6'] },
        MorseEntry { symbols: vec!['-', '-', '.', '.', '.'], token: vec!['7'] },
        MorseEntry { symbols: vec!['-', '-', '-', '.', '.'], token: vec!['8'] },
        MorseEntry { symbols: vec!['-', '-', '-', '-', '.'], token: vec!['9'] },
        MorseEntry { symbols: vec!['.', '-', '.', '-', '.'], token: vec!['+'] },
        MorseEntry { symbols: vec!['-', '-', '.', '.', '-', '-'], token: vec![','] },
        MorseEntry { symbols: vec!['-', '.', '.', '.', '.', '-'], token: vec!['-'] },
        MorseEntry { symbols: vec!['.', '-', '.', '-', '.', '-'], token: vec!['.'] },
        MorseEntry { symbols: vec!['-', '.', '.', '-', '.'], token: vec!['/'] },
        MorseEntry { symbols: vec!['-', '-', '-', '.', '.', '.'], token: vec![';'] },
        MorseEntry { symbols: vec!['-', '.', '.', '.', '-'], token: vec!['='] },
        MorseEntry { symbols: vec!['.', '.', '-', '-', '.', '.'], token: vec!['?'] },
        MorseEntry { symbols: vec!['.', '-', '-', '.', '-', '.'], token: vec!['@'] },
        MorseEntry { symbols: vec!['.', '-', '.', '.', '.'], token: vec!['<', 'A', 'S', '>'] },
        MorseEntry { symbols: vec!['.', '.', '.', '-', '.', '-'], token: vec!['<', 'S', 'K', '>'] },
    ];
    assert(t@.len() == morse_entries().len());
    assert(t@[0].symbols@ =~= morse_entries()[0].0 && t@[0].token@ =~= morse_entries()[0].1);
    assert(t@[1].symbols@ =~= morse_entries()[1].0 && t@[1].token@ =~= morse_entries()[1].1);
    assert(t@[2].symbols@ =~= morse_entries()[2].0 && t@[2].token@ =~= morse_entries()[2].1);
    assert(t@[3].symbols@ =~= morse_entries()[3].0 && t@[3].token@ =~= morse_entries()[3].1);
    assert(t@[4].symbols@ =~= morse_entries()[4].0 && t@[4].token@ =~= morse_entries()[4].1);
    assert(t@[5].symbols@ =~= morse_entries()[5].0 && t@[5].token@ =~= morse_entries()[5].1);
    assert(t@[6].symbols@ =~= morse_entries()[6].0 && t@[6].token@ =~= morse_entries()[6].1);
    assert(t@[7].symbols@ =~= morse_entries()[7].0 && t@[7].token@ =~= morse_entries()[7].1);
    assert(t@[8].symbols@ =~= morse_entries()[8].0 && t@[8].token@ =~= morse_entries()[8].1);
    assert(t@[9].symbols@ =~= morse_entries()[9].0 && t@[9].token@ =~= morse_entries()[9].1);
    assert(t@[10].symbols@ =~= morse_entries()[10].0 && t@[10].token@ =~= morse_entries()[10].1);
    assert(t@[11].symbols@ =~= morse_entries()[11].0 && t@[11].token@ =~= morse_entries()[11].1);
    assert(t@[12].symbols@ =~= morse_entries()[12].0 && t@[12].token@ =~= morse_entries()[12].1);
    assert(t@[13].symbols@ =~= morse_entries()[13].0 && t@[13].token@ =~= morse_entries()[13].1);
    assert(t@[14].symbols@ =~= morse_entries()[14].0 && t@[14].token@ =~= morse_entries()[14].1);
    assert(t@[15].symbols@ =~= morse_entries()[15].0 && t@[15].token@ =~= morse_entries()[15].1);
    assert(t@[16].symbols@ =~= morse_entries()[16].0 && t@[16].token@ =~= morse_entries()[16].1);
    assert(t@[17].symbols@ =~= morse_entries()[17].0 && t@[17].token@ =~= morse_entries()[17].1);
    assert(t@[18].symbols@ =~= morse_entries()[18].0 && t@[18].token@ =~= morse_entries()[18].1);
    assert(t@[19].symbols@ =~= morse_entries()[19].0 && t@[19].token@ =~= morse_entries()[19].1);
    assert(t@[20].symbols@ =~= morse_entries()[20].0 && t@[20].token@ =~= morse_entries()[20].1);
    assert(t@[21].symbols@ =~= morse_entries()[21].0 && t@[21].token@ =~= morse_entries()[21].1);
    assert(t@[22].symbols@ =~= morse_entries()[22].0 && t@[22].token@ =~= morse_entries()[22].1);
    assert(t@[23].symbols@ =~= morse_entries()[23].0 && t@[23].token@ =~= morse_entries()[23].1);
    assert(t@[24].symbols@ =~= morse_entries()[24].0 && t@[24].token@ =~= morse_entries()[24].1);
    assert(t@[25].symbols@ =~= morse_entries()[25].0 && t@[25].token@ =~= morse_entries()[25].1);
    assert(t@[26].symbols@ =~= morse_entries()[26].0 && t@[26].token@ =~= morse_entries()[26].1);
    assert(t@[27].symbols@ =~= morse_entries()[27].0 && t@[27].token@ =~= morse_entries()[27].1);
    assert(t@[28].symbols@ =~= morse_entries()[28].0 && t@[28].token@ =~= morse_entries()[28].1);
    assert(t@[29].symbols@ =~= morse_entries()[29].0 && t@[29].token@ =~= morse_entries()[29].1);
    assert(t@[30].symbols@ =~= morse_entries()[30].0 && t@[30].token@ =~= morse_entries()[30].1);
    assert(t@[31].symbols@ =~= morse_entries()[31].0 && t@[31].token@ =~= morse_entries()[31].1);
    assert(t@[32].symbols@ =~= morse_entries()[32].0 && t@[32].token@ =~= morse_entries()[32].1);
    assert(t@[33].symbols@ =~= morse_entries()[33].0 && t@[33].token@ =~= morse_entries()[33].1);
    assert(t@[34].symbols@ =~= morse_entries()[34].0 && t@[34].token@ =~= morse_entries()[34].1);
    assert(t@[35].symbols@ =~= morse_entries()[35].0 && t@[35].token@ =~= morse_entries()[35].1);
    assert(t@[36].symbols@ =~= morse_entries()[36].0 && t@[36].token@ =~= morse_entries()[36].1);
    assert(t@[37].symbols@ =~= morse_entries()[37].0 && t@[37].token@ =~= morse_entries()[37].1);
    assert(t@[38].symbols@ =~= morse_entries()[38].0 && t@[38].token@ =~= morse_entries()[38].1);
    assert(t@[39].symbols@ =~= morse_entries()[39].0 && t@[39].token@ =~= morse_entries()[39].1);
    assert(t@[40].symbols@ =~= morse_entries()[40].0 && t@[40].token@ =~= morse_entries()[40].1);
    assert(t@[41].symbols@ =~= morse_entries()[41].0 && t@[41].token@ =~= morse_entries()[41].1);
    assert(t@[42].symbols@ =~= morse_entries()[42].0 && t@[42].token@ =~= morse_entries()[42].1);
    assert(t@[43].symbols@ =~= morse_entries()[43].0 && t@[43].token@ =~= morse_entries()[43].1);
    assert(t@[44].symbols@ =~= morse_entries()[44].0 && t@[44].token@ =~= morse_entries()[44].1);
    assert(t@[45].symbols@ =~= morse_entries()[45].0 && t@[45].token@ =~= morse_entries()[45].1);
    assert(t@[46].symbols@ =~= morse_entries()[46].0 && t@[46].token@ =~= morse_entries()[46].1);
    assert(t@[47].symbols@ =~= morse_entries()[47].0 && t@[47].token@ =~= morse_entries()[47].1);
    assert(t@[48].symbols@ =~= morse_entries()[48].0 && t@[48].token@ =~= morse_entries()[48].1);
    assert(t@[49].symbols@ =~= morse_entries()[49].0 && t@[49].token@ =~= morse_entries()[49].1);
    assert(t@[50].symbols@ =~= morse_entries()[50].0 && t@[50].token@ =~= morse_entries()[50].1);
    assert(entries_view(t@) =~= morse_entries());
    proof {
        lemma_table_keys_distinct();
        assert forall|i: int, j: int| 0 <= i < j < t@.len() implies #[trigger] t@[i].symbols@
            != #[trigger] t@[j].symbols@ by {
            assert(entries_view(t@)[i].0 == t@[i].symbols@);
            assert(entries_view(t@)[j].0 == t@[j].symbols@);
        }
    }
    t
}

/// Whether two character sequences are equal.
pub fn chars_equal(a: &Vec<char>, b: &Vec<char>) -> (r: bool)
    ensures
        r == (a@ == b@),
{
    if a.len() != b.len() {
        return false;
    }
    let mut i: usize = 0;
    while i < a.len()
        invariant
            a@.len() == b@.len(),
            i <= a@.len(),
            a@.subrange(0, i as int) == b@.subrange(0, i as int),
        decreases a@.len() - i,
    {
        if a[i] != b[i] {
            assert(a@[i as int] != b@[i as int]);
            return false;
        }
        assert(a@.subrange(0, i + 1) =~= a@.subrange(0, i as int).push(a@[i as int]));
        assert(b@.subrange(0, i + 1) =~= b@.subrange(0, i as int).push(b@[i as int]));
        i = i + 1;
    }
    assert(a@ =~= a@.subrange(0, a@.len() as int));
    assert(b@ =~= b@.subrange(0, b@.len() as int));
    true
}

/// A fresh copy of a character sequence.
pub fn copy_chars(v: &Vec<char>) -> (r: Vec<char>)
    ensures
        r@ == v@,
{
    let mut out: Vec<char> = Vec::with_capacity(v.len());
    let mut i: usize = 0;
    while i < v.len()
        invariant
            i <= v@.len(),
            out@ == v@.subrange(0, i as int),
        decreases v@.len() - i,
    {
        out.push(v[i]);
        i = i + 1;
        assert(out@ =~= v@.subrange(0, i as int));
    }
    assert(out@ =~= v@);
    out
}

/// Looks `symbols` up in `table`, exact matches only: no prefix of an entry
/// and no entry that extends `symbols` is taken.
pub fn decode(table: &Vec<MorseEntry>, symbols: &Vec<char>) -> (r: Option<Vec<char>>)
    ensures
        match r {
            Some(t) => lookup(entries_view(table@), symbols@) == Some(t@),
            None => lookup(entries_view(table@), symbols@) is None,
        },
{
    let ghost view = entries_view(table@);
    let mut i: usize = 0;
    while i < table.len()
        invariant
            view == entries_view(table@),
            i <= table@.len(),
            lookup_from(view, symbols@, i as int) == lookup(view, symbols@),
        decreases table@.len() - i,
    {
        if chars_equal(&table[i].symbols, symbols) {
            return Some(copy_chars(&table[i].token));
        }
        i = i + 1;
    }
    None
}

} // verus!
