use std::collections::hash_map::DefaultHasher;
use std::hash::Hasher;
use vstd::prelude::*;
use crate::traits::{hash, seq_digest, Hashable, StateMachine};

verus! {

/// The keys on the ATM keypad.
#[derive(Clone, Copy, Debug, PartialEq, Eq, Structural)]
pub enum Key {
    One,
    Two,
    Three,
    Four,
    Enter,
}

impl Key {
    /// The byte that stands for this key in the hasher's input.
    pub open spec fn spec_code(self) -> u8 {
        match self {
            Key::One => 1u8,
            Key::Two => 2u8,
            Key::Three => 3u8,
            Key::Four => 4u8,
            Key::Enter => 5u8,
        }
    }

    /// The byte fed to the hasher for this key.
    pub fn code(self) -> (code: u8)
        ensures
            code == self.spec_code(),
    {
        match self {
            Key::One => 1u8,
            Key::Two => 2u8,
            Key::Three => 3u8,
            Key::Four => 4u8,
            Key::Enter => 5u8,
        }
    }

    /// The label printed on this key.
    pub open spec fn spec_label(self) -> Seq<char> {
        match self {
            Key::One => seq!['1'],
            Key::Two => seq!['2'],
            Key::Three => seq!['3'],
            Key::Four => seq!['4'],
            Key::Enter => seq!['E', 'n', 't', 'e', 'r'],
        }
    }

    /// The label printed on this key, as a string.
    pub fn label(self) -> (label: &'static str)
        ensures
            label@ == self.spec_label(),
    {
        proof {
            reveal_strlit("1");
            reveal_strlit("2");
            reveal_strlit("3");
            reveal_strlit("4");
            reveal_strlit("Enter");
        }
        match self {
            Key::One => "1",
            Key::Two => "2",
            Key::Three => "3",
            Key::Four => "4",
            Key::Enter => "Enter",
        }
    }
}

impl Hashable for Key {
    /// A key is hashed as a single one-byte write.
    open spec fn hash_writes(&self) -> Seq<Seq<u8>> {
        seq![seq![self.spec_code()]]
    }

    fn feed(&self, hasher: &mut DefaultHasher) {
        let mut bytes: Vec<u8> = Vec::new();
        bytes.push(self.code());
        hasher.write(bytes.as_slice());
        proof {
            assert(bytes@ =~= seq![self.spec_code()]);
            assert(hasher@ =~= old(hasher)@ + self.hash_writes());
        }
    }
}

/// Something you can do to the ATM.
#[derive(Clone, Copy, Debug, PartialEq, Eq, Structural)]
pub enum Action {
    /// Swipe your card at the ATM. The attached value is the hash of the
    /// pin that should be keyed in on the keypad next.
    SwipeCard(u64),
    /// Press a key on the keypad.
    PressKey(Key),
}

/// The various states of authentication possible with the ATM.
#[derive(Clone, Copy, Debug, PartialEq, Eq, Structural)]
pub enum Auth {
    /// No session has begun yet. Waiting for the user to swipe their card.
    Waiting,
    /// The user has swiped their card, providing the enclosed pin hash.
    /// Waiting for the user to key in their pin.
    Authenticating(u64),
    /// The user has authenticated. Waiting for them to key in the amount
    /// of cash to withdraw.
    Authenticated,
}

impl Default for Auth {
    /// A fresh machine waits for a card swipe.
    fn default() -> (auth: Self)
        ensures
            auth == Auth::Waiting,
    {
        Auth::Waiting
    }
}

/// The abstract value of an `Atm`: the cash it holds, its authentication
/// status, and the ordered keystrokes collected since the last `Enter`.
#[verifier::ext_equal]
pub struct AtmView {
    pub cash_inside: u64,
    pub auth: Auth,
    pub keystrokes: Seq<Key>,
}

/// The ATM. When a card is swiped, the ATM learns the correct pin's hash.
/// It waits for you to key in your pin. You can press as many numeric keys
/// as you like followed by enter. If the pin is incorrect, the ATM
/// automatically goes back to the main menu. If your pin is correct, the
/// ATM waits for you to key in an amount of money to withdraw.
pub struct Atm {
    /// How much money is in the ATM.
    pub cash_inside: u64,
    /// The machine's authentication status.
    pub expected_pin_hash: Auth,
    /// All the keys that have been pressed since the last `Enter`.
    pub keystroke_register: Vec<Key>,
}

impl View for Atm {
    type V = AtmView;

    open spec fn view(&self) -> AtmView {
        AtmView {
            cash_inside: self.cash_inside,
            auth: self.expected_pin_hash,
            keystrokes: self.keystroke_register@,
        }
    }
}

impl View for Action {
    type V = Action;

    open spec fn view(&self) -> Action {
        *self
    }
}

/// Copy the keystroke register and append one more key.
fn pushed(register: &Vec<Key>, key: Key) -> (longer: Vec<Key>)
    ensures
        longer@ == register@.push(key),
{
    let mut longer: Vec<Key> = Vec::new();
    let mut i: usize = 0;
    while i < register.len()
        invariant
            i <= register.len(),
            longer@ == register@.take(i as int),
        decreases register.len() - i,
    {
        longer.push(register[i]);
        proof {
            assert(register@.take(i as int + 1) =~= register@.take(i as int).push(
                register@[i as int],
            ));
        }
        i = i + 1;
    }
    proof {
        assert(register@.take(register.len() as int) =~= register@);
    }
    longer.push(key);
    longer
}

impl StateMachine for Atm {
    type State = Atm;

    type Transition = Action;

    /// The transition table. Swiping a card while waiting begins a session
    /// that remembers the expected pin hash; re-swiping mid-entry is
    /// special-cased to overwrite that hash and restart the entry rather
    /// than fall back to `Waiting`. `Enter` during authentication submits
    /// the digest of the collected keystrokes and compares it against the
    /// hash the state carries; any other key accumulates. Once
    /// authenticated, keys accumulate withdrawal digits and `Enter` always
    /// ends the session (amount processing is left to the session driver).
    /// Every unlisted combination is a fail-safe reset to `Waiting`, so the
    /// machine is total and can never get stuck.
    open spec fn spec_next(s: AtmView, t: Action) -> AtmView {
        match (s.auth, t) {
            (Auth::Waiting, Action::SwipeCard(pin_hash)) => AtmView {
                cash_inside: s.cash_inside,
                auth: Auth::Authenticating(pin_hash),
                keystrokes: Seq::empty(),
            },
            (Auth::Authenticating(_), Action::SwipeCard(pin_hash)) => AtmView {
                cash_inside: s.cash_inside,
                auth: Auth::Authenticating(pin_hash),
                keystrokes: Seq::empty(),
            },
            (Auth::Authenticating(pin_hash), Action::PressKey(Key::Enter)) => AtmView {
                cash_inside: s.cash_inside,
                auth: if seq_digest(s.keystrokes) == pin_hash {
                    Auth::Authenticated
                } else {
                    Auth::Waiting
                },
                keystrokes: Seq::empty(),
            },
            (Auth::Authenticating(pin_hash), Action::PressKey(k)) => AtmView {
                cash_inside: s.cash_inside,
                auth: Auth::Authenticating(pin_hash),
                keystrokes: s.keystrokes.push(k),
            },
            (Auth::Authenticated, Action::PressKey(Key::Enter)) => AtmView {
                cash_inside: s.cash_inside,
                auth: Auth::Waiting,
                keystrokes: Seq::empty(),
            },
            (Auth::Authenticated, Action::PressKey(k)) => AtmView {
                cash_inside: s.cash_inside,
                auth: Auth::Authenticated,
                keystrokes: s.keystrokes.push(k),
            },
            _ => AtmView {
                cash_inside: s.cash_inside,
                auth: Auth::Waiting,
                keystrokes: Seq::empty(),
            },
        }
    }

    fn next_state(starting_state: &Atm, t: &Action) -> (next: Atm) {
        match (starting_state.expected_pin_hash, *t) {
            (Auth::Waiting, Action::SwipeCard(pin_hash)) => Atm {
                cash_inside: starting_state.cash_inside,
                expected_pin_hash: Auth::Authenticating(pin_hash),
                keystroke_register: Vec::new(),
            },
            (Auth::Authenticating(_), Action::SwipeCard(pin_hash)) => Atm {
                cash_inside: starting_state.cash_inside,
                expected_pin_hash: Auth::Authenticating(pin_hash),
                keystroke_register: Vec::new(),
            },
            (Auth::Authenticating(pin_hash), Action::PressKey(Key::Enter)) => {
                let submitted: u64 = hash(&starting_state.keystroke_register);
                Atm {
                    cash_inside: starting_state.cash_inside,
                    expected_pin_hash: if submitted == pin_hash {
                        Auth::Authenticated
                    } else {
                        Auth::Waiting
                    },
                    keystroke_register: Vec::new(),
                }
            },
            (Auth::Authenticating(pin_hash), Action::PressKey(k)) => Atm {
                cash_inside: starting_state.cash_inside,
                expected_pin_hash: Auth::Authenticating(pin_hash),
                keystroke_register: pushed(&starting_state.keystroke_register, k),
            },
            (Auth::Authenticated, Action::PressKey(Key::Enter)) => Atm {
                cash_inside: starting_state.cash_inside,
                expected_pin_hash: Auth::Waiting,
                keystroke_register: Vec::new(),
            },
            (Auth::Authenticated, Action::PressKey(k)) => Atm {
                cash_inside: starting_state.cash_inside,
                expected_pin_hash: Auth::Authenticated,
                keystroke_register: pushed(&starting_state.keystroke_register, k),
            },
            _ => Atm {
                cash_inside: starting_state.cash_inside,
                expected_pin_hash: Auth::Waiting,
                keystroke_register: Vec::new(),
            },
        }
    }
}

/// Law: swiping a card while the machine waits begins a session that
/// remembers the swiped pin hash, with a fresh keystroke register and the
/// cash untouched.
pub proof fn lemma_swipe_begins_session(s: AtmView, pin_hash: u64)
    requires
        s.auth == Auth::Waiting,
    ensures
        Atm::spec_next(s, Action::SwipeCard(pin_hash)) == (AtmView {
            cash_inside: s.cash_inside,
            auth: Auth::Authenticating(pin_hash),
            keystrokes: Seq::empty(),
        }),
{
}

/// Law: re-swiping mid-entry overwrites the expected pin hash and restarts
/// the entry, rather than falling back to `Waiting`.
pub proof fn lemma_reswipe_overwrites(s: AtmView, new_hash: u64)
    requires
        s.auth is Authenticating,
    ensures
        Atm::spec_next(s, Action::SwipeCard(new_hash)) == (AtmView {
            cash_inside: s.cash_inside,
            auth: Auth::Authenticating(new_hash),
            keystrokes: Seq::empty(),
        }),
{
}

/// Law: pressing any key before a card swipe leaves the machine waiting.
pub proof fn lemma_key_before_swipe(s: AtmView, k: Key)
    requires
        s.auth == Auth::Waiting,
    ensures
        Atm::spec_next(s, Action::PressKey(k)).auth == Auth::Waiting,
{
}

/// Law: during pin entry, any key but `Enter` accumulates in the keystroke
/// register and leaves the expected pin hash in place.
pub proof fn lemma_digit_accumulates_during_entry(s: AtmView, pin_hash: u64, k: Key)
    requires
        s.auth == Auth::Authenticating(pin_hash),
        k != Key::Enter,
    ensures
        Atm::spec_next(s, Action::PressKey(k)) == (AtmView {
            cash_inside: s.cash_inside,
            auth: Auth::Authenticating(pin_hash),
            keystrokes: s.keystrokes.push(k),
        }),
{
}

/// Law: submitting keystrokes whose digest matches the expected pin hash
/// authenticates the session and clears the register.
pub proof fn lemma_enter_matching_digest(s: AtmView, pin_hash: u64)
    requires
        s.auth == Auth::Authenticating(pin_hash),
        seq_digest(s.keystrokes) == pin_hash,
    ensures
        Atm::spec_next(s, Action::PressKey(Key::Enter)) == (AtmView {
            cash_inside: s.cash_inside,
            auth: Auth::Authenticated,
            keystrokes: Seq::empty(),
        }),
{
}

/// Law: submitting keystrokes whose digest differs from the expected pin
/// hash returns the machine to the main menu.
pub proof fn lemma_enter_wrong_digest(s: AtmView, pin_hash: u64)
    requires
        s.auth == Auth::Authenticating(pin_hash),
        seq_digest(s.keystrokes) != pin_hash,
    ensures
        Atm::spec_next(s, Action::PressKey(Key::Enter)) == (AtmView {
            cash_inside: s.cash_inside,
            auth: Auth::Waiting,
            keystrokes: Seq::empty(),
        }),
{
}

/// Law: once authenticated, any key but `Enter` accumulates a withdrawal
/// digit and keeps the session authenticated.
pub proof fn lemma_digit_accumulates_when_authenticated(s: AtmView, k: Key)
    requires
        s.auth == Auth::Authenticated,
        k != Key::Enter,
    ensures
        Atm::spec_next(s, Action::PressKey(k)) == (AtmView {
            cash_inside: s.cash_inside,
            auth: Auth::Authenticated,
            keystrokes: s.keystrokes.push(k),
        }),
{
}

/// Law: `Enter` from an authenticated session always ends it — whether or
/// not a withdrawal was honored, the machine resets to `Waiting` with a
/// cleared register.
pub proof fn lemma_enter_ends_session(s: AtmView)
    requires
        s.auth == Auth::Authenticated,
    ensures
        Atm::spec_next(s, Action::PressKey(Key::Enter)) == (AtmView {
            cash_inside: s.cash_inside,
            auth: Auth::Waiting,
            keystrokes: Seq::empty(),
        }),
{
}

/// Law: fail-safe reset. Every (state, transition) pair outside the listed
/// rows — a key press with no session, or a swipe while authenticated —
/// resets the machine to `Waiting` with a cleared register, so the machine
/// can never get stuck in an invalid configuration.
pub proof fn lemma_fail_safe_reset(s: AtmView, t: Action)
    requires
        (s.auth == Auth::Waiting && t is PressKey) || (s.auth == Auth::Authenticated
            && t is SwipeCard),
    ensures
        Atm::spec_next(s, t) == (AtmView {
            cash_inside: s.cash_inside,
            auth: Auth::Waiting,
            keystrokes: Seq::empty(),
        }),
{
}

/// Law: no transition ever changes the cash inside the machine — amount
/// processing is the session driver's business, not the transition table's.
pub proof fn lemma_cash_untouched(s: AtmView, t: Action)
    ensures
        Atm::spec_next(s, t).cash_inside == s.cash_inside,
{
}

} // verus!
