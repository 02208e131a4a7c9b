//! Password generation from selectable character classes.

use vstd::prelude::*;
use vstd::string::StrSliceExecFns;
use rand::seq::SliceRandom;

verus! {

/// A class of characters that a password may draw from.
#[derive(Debug, Clone, Copy, PartialEq, Eq, Structural)]
pub enum CharsetType {
    Lowercase,
    Uppercase,
    Symbols,
    Numbers,
    Special,
}

/// The characters of a class, in the order in which they are listed.
///
/// `Uppercase` leaves out the letter `O`, which is easily taken for a zero.
pub open spec fn charset_chars(kind: CharsetType) -> Seq<char> {
    match kind {
        CharsetType::Lowercase => "abcdefghijklmnopqrstuvwxyz"@,
        CharsetType::Uppercase => "ABCDEFGHIJKLMNPQRSTUVWXYZ"@,
        CharsetType::Symbols => "_*&|!?@$#=%"@,
        CharsetType::Numbers => "0123456789"@,
        CharsetType::Special => "!\"#$%&'()*+,-./:;<=>?@[\\]^_`{|}~"@,
    }
}

/// How many characters a class has.
pub open spec fn charset_size(kind: CharsetType) -> nat {
    match kind {
        CharsetType::Lowercase => 26,
        CharsetType::Uppercase => 25,
        CharsetType::Symbols => 11,
        CharsetType::Numbers => 10,
        CharsetType::Special => 32,
    }
}

/// Every class has exactly as many characters as `charset_size` says.
pub proof fn lemma_charset_size(kind: CharsetType)
    ensures
        charset_chars(kind).len() == charset_size(kind),
{
    reveal_strlit("abcdefghijklmnopqrstuvwxyz");
    reveal_strlit("ABCDEFGHIJKLMNPQRSTUVWXYZ");
    reveal_strlit("_*&|!?@$#=%");
    reveal_strlit("0123456789");
    reveal_strlit("!\"#$%&'()*+,-./:;<=>?@[\\]^_`{|}~");
}

/// Copies the characters of a string into a vector.
fn chars_of(s: &str) -> (v: Vec<char>)
    ensures
        v@ == s@,
{
    let n = s.unicode_len();
    let mut v: Vec<char> = Vec::new();
    let mut i: usize = 0;
    while i < n
        invariant
            i <= n,
            n == s@.len(),
            v@ == s@.subrange(0, i as int),
        decreases n - i,
    {
        v.push(s.get_char(i));
        i += 1;
        assert(v@ =~= s@.subrange(0, i as int));
    }
    assert(v@ =~= s@);
    v
}

/// Looks up the characters of a class.
pub fn charset(kind: &CharsetType) -> (v: Vec<char>)
    ensures
        v@ == charset_chars(*kind),
        v@.len() == charset_size(*kind),
{
    proof {
        lemma_charset_size(*kind);
    }
    match kind {
        CharsetType::Lowercase => chars_of("abcdefghijklmnopqrstuvwxyz"),
        CharsetType::Uppercase => chars_of("ABCDEFGHIJKLMNPQRSTUVWXYZ"),
        CharsetType::Symbols => chars_of("_*&|!?@$#=%"),
        CharsetType::Numbers => chars_of("0123456789"),
        CharsetType::Special => chars_of("!\"#$%&'()*+,-./:;<=>?@[\\]^_`{|}~"),
    }
}

/// The characters that a list of classes contributes, class after class.
///
/// A class that is listed twice contributes its characters twice.
pub open spec fn pool_chars(charsets: Seq<CharsetType>) -> Seq<char>
    decreases charsets.len(),
{
    if charsets.len() == 0 {
        Seq::empty()
    } else {
        pool_chars(charsets.drop_last()) + charset_chars(charsets.last())
    }
}

/// How many characters a list of classes contributes, repetitions counted.
pub open spec fn pool_size(charsets: Seq<CharsetType>) -> nat
    decreases charsets.len(),
{
    if charsets.len() == 0 {
        0
    } else {
        pool_size(charsets.drop_last()) + charset_size(charsets.last())
    }
}

/// The pool of a list of classes has `pool_size` characters.
pub proof fn lemma_pool_size(charsets: Seq<CharsetType>)
    ensures
        pool_chars(charsets).len() == pool_size(charsets),
    decreases charsets.len(),
{
    if charsets.len() > 0 {
        lemma_pool_size(charsets.drop_last());
        lemma_charset_size(charsets.last());
    }
}

/// Listing one more class appends its characters to the pool, whether or
/// not the class was listed before.
pub proof fn lemma_pool_push(charsets: Seq<CharsetType>, kind: CharsetType)
    ensures
        pool_chars(charsets.push(kind)) == pool_chars(charsets) + charset_chars(kind),
        pool_size(charsets.push(kind)) == pool_size(charsets) + charset_size(kind),
{
    assert(charsets.push(kind).drop_last() =~= charsets);
}

/// The pool is empty exactly if no class is listed.
pub proof fn lemma_pool_empty(charsets: Seq<CharsetType>)
    ensures
        pool_size(charsets) == 0 <==> charsets.len() == 0,
{
}

/// A character is in the pool exactly if one of the listed classes has it.
pub proof fn lemma_pool_membership(charsets: Seq<CharsetType>, c: char)
    ensures
        pool_chars(charsets).contains(c) <==> exists|k: int|
            0 <= k < charsets.len() && #[trigger] charset_chars(charsets[k]).contains(c),
    decreases charsets.len(),
{
    if charsets.len() > 0 {
        let front = charsets.drop_last();
        let last = charset_chars(charsets.last());
        lemma_pool_membership(front, c);
        let pool = pool_chars(charsets);
        if pool.contains(c) {
            let i = choose|i: int| 0 <= i < pool.len() && pool[i] == c;
            if i < pool_chars(front).len() {
                assert(pool_chars(front)[i] == c);
                let k = choose|k: int|
                    0 <= k < front.len() && #[trigger] charset_chars(front[k]).contains(c);
                assert(charsets[k] == front[k]);
            } else {
                assert(last[i - pool_chars(front).len()] == c);
                assert(charset_chars(charsets[charsets.len() - 1]).contains(c));
            }
        }
        if exists|k: int|
            0 <= k < charsets.len() && #[trigger] charset_chars(charsets[k]).contains(c) {
            let k = choose|k: int|
                0 <= k < charsets.len() && #[trigger] charset_chars(charsets[k]).contains(c);
            if k < front.len() {
                assert(charset_chars(front[k]).contains(c));
                let head = pool_chars(front);
                let i = choose|i: int| 0 <= i < head.len() && head[i] == c;
                assert(pool[i] == c);
            } else {
                let j = choose|j: int| 0 <= j < last.len() && last[j] == c;
                assert(pool[pool_chars(front).len() + j] == c);
            }
        }
    }
}

/// Why a password could not be generated.
#[derive(Debug, Clone, Copy, PartialEq, Eq, Structural)]
pub enum GenerationError {
    /// A password of positive length was asked for, but no class was selected.
    EmptyPool,
}

/// Appends a character to a string, as `String::push` is documented to do.
pub assume_specification[ String::push ](s: &mut String, ch: char)
    ensures
        final(s)@ == old(s)@.push(ch),
;

/// Draws one element of `pool` with `rand`'s `SliceRandom::choose`, fed by
/// the thread-local generator. Nothing is claimed about which element
/// comes out: only that an empty pool yields `None` and that any other
/// pool yields one of its own elements.
#[verifier::external_body]
fn choose_char(pool: &Vec<char>) -> (picked: Option<char>)
    ensures
        pool@.len() == 0 ==> picked is None,
        pool@.len() > 0 ==> picked is Some && pool@.contains(picked->0),
{
    pool.choose(&mut rand::thread_rng()).copied()
}

/// Lays out the pool of a list of classes.
fn build_pool(charsets: &Vec<CharsetType>) -> (pool: Vec<char>)
    ensures
        pool@ == pool_chars(charsets@),
        pool@.len() == pool_size(charsets@),
{
    let mut pool: Vec<char> = Vec::new();
    let mut i: usize = 0;
    while i < charsets.len()
        invariant
            i <= charsets.len(),
            pool@ == pool_chars(charsets@.subrange(0, i as int)),
        decreases charsets.len() - i,
    {
        let mut chars = charset(&charsets[i]);
        pool.append(&mut chars);
        i += 1;
        proof {
            let upto = charsets@.subrange(0, i as int);
            assert(upto.drop_last() =~= charsets@.subrange(0, i - 1));
        }
    }
    proof {
        assert(charsets@.subrange(0, i as int) =~= charsets@);
        lemma_pool_size(charsets@);
    }
    pool
}

/// What a configuration amounts to: the length asked for and the classes
/// selected, in the order in which they were added.
pub struct PasswordSpec {
    pub length: int,
    pub charsets: Seq<CharsetType>,
}

impl PasswordSpec {
    /// The characters that passwords are drawn from.
    pub open spec fn pool(self) -> Seq<char> {
        pool_chars(self.charsets)
    }
}

/// Collects the classes and the length of the passwords to generate.
#[derive(Debug)]
pub struct PasswdGenBuilder {
    length: i16,
    charsets: Vec<CharsetType>,
}

/// A frozen configuration from which passwords are drawn.
#[derive(Debug)]
pub struct PasswdGen {
    length: i16,
    charsets: Vec<CharsetType>,
}

impl View for PasswdGenBuilder {
    type V = PasswordSpec;

    closed spec fn view(&self) -> PasswordSpec {
        PasswordSpec { length: self.length as int, charsets: self.charsets@ }
    }
}

impl View for PasswdGen {
    type V = PasswordSpec;

    closed spec fn view(&self) -> PasswordSpec {
        PasswordSpec { length: self.length as int, charsets: self.charsets@ }
    }
}

impl PasswdGenBuilder {
    /// Selects one more class. Selecting a class again adds its characters
    /// to the pool once more.
    pub fn add_charset(&mut self, charset: CharsetType) -> (ret: &mut Self)
        ensures
            ret@.charsets == old(self)@.charsets.push(charset),
            ret@.length == old(self)@.length,
            *final(self) == *final(ret),
    {
        self.charsets.push(charset);
        self
    }

    /// Sets the number of characters of the password.
    pub fn set_length(&mut self, length: i16) -> (ret: &mut Self)
        ensures
            ret@.length == length,
            ret@.charsets == old(self)@.charsets,
            *final(self) == *final(ret),
    {
        self.length = length;
        self
    }

    /// Applies the default selection: where no class has been selected,
    /// selects lowercase letters, uppercase letters and digits; otherwise
    /// changes nothing.
    pub fn apply_default_charsets(&mut self)
        ensures
            final(self)@.length == old(self)@.length,
            old(self)@.charsets.len() == 0 ==> final(self)@.charsets == seq![
                CharsetType::Lowercase,
                CharsetType::Uppercase,
                CharsetType::Numbers,
            ],
            old(self)@.charsets.len() > 0 ==> final(self)@.charsets == old(self)@.charsets,
    {
        if self.charsets.len() == 0 {
            self.charsets.push(CharsetType::Lowercase);
            self.charsets.push(CharsetType::Uppercase);
            self.charsets.push(CharsetType::Numbers);
            assert(self.charsets@ =~= seq![
                CharsetType::Lowercase,
                CharsetType::Uppercase,
                CharsetType::Numbers,
            ]);
        }
    }

    /// The length that was asked for.
    pub fn length(&self) -> (n: i16)
        ensures
            n == self@.length,
    {
        self.length
    }

    /// The classes selected so far.
    pub fn charsets(&self) -> (selected: &Vec<CharsetType>)
        ensures
            selected@ == self@.charsets,
    {
        &self.charsets
    }

    /// The number of characters in the pool of the selected classes.
    pub fn pool_size(&self) -> (n: usize)
        ensures
            n == self@.pool().len(),
            n == pool_size(self@.charsets),
    {
        build_pool(&self.charsets).len()
    }

    /// Freezes the configuration.
    pub fn build(self) -> (gen: PasswdGen)
        ensures
            gen@ == self@,
    {
        PasswdGen { length: self.length, charsets: self.charsets }
    }
}

impl Default for PasswdGenBuilder {
    /// A configuration with length zero and no class selected.
    fn default() -> (b: Self)
        ensures
            b@.length == 0,
            b@.charsets == Seq::<CharsetType>::empty(),
    {
        PasswdGenBuilder { length: 0, charsets: Vec::new() }
    }
}

impl Default for PasswdGen {
    /// A generator of empty passwords.
    fn default() -> (gen: Self)
        ensures
            gen@.length == 0,
            gen@.charsets == Seq::<CharsetType>::empty(),
    {
        PasswdGen { length: 0, charsets: Vec::new() }
    }
}

impl PasswdGen {
    /// Starts a configuration with length zero and no class selected.
    pub fn builder() -> (b: PasswdGenBuilder)
        ensures
            b@.length == 0,
            b@.charsets == Seq::<CharsetType>::empty(),
    {
        PasswdGenBuilder::default()
    }

    /// Generates a password: as many characters as the length says, each
    /// drawn at random from the pool of the selected classes.
    ///
    /// A length of zero or less gives the empty string. A positive length
    /// with no class selected is an error.
    pub fn generate(&mut self) -> (res: Result<String, GenerationError>)
        ensures
            *final(self) == *old(self),
            old(self)@.length <= 0 ==> res is Ok && res->Ok_0@.len() == 0,
            old(self)@.length > 0 && old(self)@.charsets.len() == 0 ==> res == Err::<
                String,
                GenerationError,
            >(GenerationError::EmptyPool),
            old(self)@.length > 0 && old(self)@.charsets.len() > 0 ==> {
                &&& res is Ok
                &&& res->Ok_0@.len() == old(self)@.length
                &&& forall|i: int|
                    0 <= i < res->Ok_0@.len() ==> old(self)@.pool().contains(
                        #[trigger] res->Ok_0@[i],
                    )
            },
    {
        let mut s = String::new();
        if self.length <= 0 {
            return Ok(s);
        }
        let pool = build_pool(&self.charsets);
        proof {
            lemma_pool_empty(self.charsets@);
        }
        if pool.len() == 0 {
            return Err(GenerationError::EmptyPool);
        }
        let mut i: i16 = 0;
        while i < self.length
            invariant
                0 <= i <= self.length,
                pool@.len() > 0,
                s@.len() == i,
                forall|j: int| 0 <= j < s@.len() ==> pool@.contains(#[trigger] s@[j]),
            decreases self.length - i,
        {
            match choose_char(&pool) {
                Some(c) => s.push(c),
                None => return Err(GenerationError::EmptyPool),
            }
            i += 1;
        }
        Ok(s)
    }
}

} // verus!
