//! Drawing passwords from an alphabet.
//!
//! Every character of a password is drawn on its own, with replacement, by
//! an index into the alphabet. The indices come from the thread-local
//! generator of the `rand` crate; how a password follows from the indices is
//! fixed by [`picked`].

use rand::Rng;
use vstd::prelude::*;

verus! {

/// `rand::rngs::ThreadRng`, the handle to the thread-local generator. Nothing
/// is known of what it holds.
#[verifier::external_type_specification]
#[verifier::external_body]
pub struct ExThreadRng(rand::rngs::ThreadRng);

/// `rand::thread_rng` hands out the thread-local generator. Nothing is
/// claimed of it. The first call in a thread seeds the generator from the
/// operating system and panics where the system has no entropy to give.
pub assume_specification[ rand::thread_rng ]() -> (rng: rand::rngs::ThreadRng)
;

/// Draws an index with `rand::Rng::gen_range` on the range from zero up to
/// but excluding `bound`. The call panics on an empty range, hence the
/// `requires`; what it returns lies in the range, which index it is depends
/// on the generator.
#[verifier::external_body]
fn random_index(rng: &mut rand::rngs::ThreadRng, bound: usize) -> (index: usize)
    requires
        bound > 0,
    ensures
        index < bound,
{
    rng.gen_range(0..bound)
}

/// Whether every index in `indices` points into an alphabet of `size` characters.
pub open spec fn in_range(indices: Seq<usize>, size: nat) -> bool {
    forall|k: int| 0 <= k < indices.len() ==> indices[k] < size
}

/// The password that `indices` pick from `charset`: its `k`-th character is
/// the one at the `k`-th index.
pub open spec fn picked(charset: Seq<char>, indices: Seq<usize>) -> Seq<char> {
    Seq::new(indices.len(), |k: int| charset[indices[k] as int])
}

/// Whether every character of `password` is one of `charset`.
pub open spec fn drawn_from(password: Seq<char>, charset: Set<char>) -> bool {
    forall|k: int| 0 <= k < password.len() ==> charset.contains(#[trigger] password[k])
}

/// Whether `passwords` are `count` passwords of `length` characters each, all
/// drawn from `charset`.
pub open spec fn sampled(
    passwords: Seq<Seq<char>>,
    charset: Set<char>,
    length: nat,
    count: nat,
) -> bool {
    &&& passwords.len() == count
    &&& forall|p: int|
        0 <= p < passwords.len() ==> (#[trigger] passwords[p]).len() == length && drawn_from(
            passwords[p],
            charset,
        )
}

/// What is picked from an alphabet has one character for each index, and
/// each is a character of the alphabet.
pub proof fn lemma_picked_is_drawn(charset: Seq<char>, indices: Seq<usize>)
    requires
        in_range(indices, charset.len()),
    ensures
        picked(charset, indices).len() == indices.len(),
        drawn_from(picked(charset, indices), charset.to_set()),
{
    let password = picked(charset, indices);
    assert forall|k: int| 0 <= k < password.len() implies charset.to_set().contains(
        #[trigger] password[k],
    ) by {
        assert(charset.contains(charset[indices[k] as int]));
    }
}

/// Every text over an alphabet is picked by some indices: how a password
/// follows from the indices that were drawn rules out no password, and ties
/// no password to another.
pub proof fn lemma_every_password_is_picked(charset: Seq<char>, password: Seq<char>)
    requires
        charset.len() <= usize::MAX,
        drawn_from(password, charset.to_set()),
    ensures
        exists|indices: Seq<usize>|
            indices.len() == password.len() && in_range(indices, charset.len()) && picked(
                charset,
                indices,
            ) == password,
{
    let place = |k: int| choose|i: int| 0 <= i < charset.len() && charset[i] == password[k];
    let indices = Seq::new(password.len(), |k: int| place(k) as usize);
    assert forall|k: int| 0 <= k < password.len() implies 0 <= place(k) < charset.len()
        && charset[place(k)] == password[k] by {
        assert(charset.to_set().contains(password[k]));
        assert(charset.contains(password[k]));
    }
    assert(in_range(indices, charset.len()));
    assert(picked(charset, indices) =~= password);
}

/// Builds the password that `indices` pick from `charset`.
pub fn password_from_indices(charset: &[char], indices: &[usize]) -> (password: String)
    requires
        in_range(indices@, charset@.len()),
    ensures
        password@ == picked(charset@, indices@),
{
    let mut password = String::new();
    let mut k: usize = 0;
    while k < indices.len()
        invariant
            k <= indices@.len(),
            in_range(indices@, charset@.len()),
            password@ == picked(charset@, indices@.take(k as int)),
        decreases indices@.len() - k,
    {
        password.push(charset[indices[k]]);
        assert(password@ =~= picked(charset@, indices@.take(k + 1)));
        k += 1;
    }
    assert(indices@.take(k as int) =~= indices@);
    password
}

/// Draws `length` indices into an alphabet of `size` characters.
fn draw_indices(rng: &mut rand::rngs::ThreadRng, size: usize, length: usize) -> (indices: Vec<
    usize,
>)
    requires
        length == 0 || size > 0,
    ensures
        indices@.len() == length,
        in_range(indices@, size as nat),
{
    let mut indices: Vec<usize> = Vec::new();
    let mut k: usize = 0;
    while k < length
        invariant
            k <= length,
            length == 0 || size > 0,
            indices@.len() == k,
            in_range(indices@, size as nat),
        decreases length - k,
    {
        let index = random_index(rng, size);
        indices.push(index);
        k += 1;
    }
    indices
}

/// Draws one password of `length` characters from `charset`.
///
/// Each character is picked by an index drawn afresh, so characters may
/// repeat. An empty `charset` can only serve a password of no characters.
pub fn generate_password(charset: &[char], length: usize) -> (password: String)
    requires
        length == 0 || charset@.len() > 0,
    ensures
        password@.len() == length,
        drawn_from(password@, charset@.to_set()),
        exists|indices: Seq<usize>|
            indices.len() == length && in_range(indices, charset@.len()) && password@ == picked(
                charset@,
                indices,
            ),
{
    let mut rng = rand::thread_rng();
    let indices = draw_indices(&mut rng, charset.len(), length);
    proof {
        lemma_picked_is_drawn(charset@, indices@);
    }
    password_from_indices(charset, indices.as_slice())
}

/// Draws `count` passwords of `length` characters each from `charset`, each
/// by a call of its own to [`generate_password`].
pub fn generate_passwords(charset: &[char], length: usize, count: usize) -> (passwords: Vec<
    String,
>)
    requires
        length == 0 || count == 0 || charset@.len() > 0,
    ensures
        sampled(passwords.deep_view(), charset@.to_set(), length as nat, count as nat),
{
    let mut passwords: Vec<String> = Vec::new();
    let mut n: usize = 0;
    while n < count
        invariant
            n <= count,
            length == 0 || count == 0 || charset@.len() > 0,
            sampled(passwords.deep_view(), charset@.to_set(), length as nat, n as nat),
        decreases count - n,
    {
        let ghost before = passwords.deep_view();
        let password = generate_password(charset, length);
        passwords.push(password);
        assert(passwords.deep_view() =~= before.push(password@));
        n += 1;
    }
    passwords
}

} // verus!
