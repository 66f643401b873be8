//! The notification catalog: the concrete payload behind each abstract
//! notification kind — its text, its keyboard, and, for the photo kinds, a
//! file picked at random from a fixed rotation.

use vstd::prelude::*;
use vstd::string::*;
use rand::seq::SliceRandom;
use crate::machine::Notice;

verus! {

/// The keyboard, if any, that accompanies a notification. The caller maps
/// each variant to its transport's markup.
#[derive(Clone, Copy, Debug, PartialEq, Eq, Structural)]
pub enum Keyboard {
    /// No markup at all.
    Plain,
    /// Remove any reply keyboard still on screen.
    Remove,
    /// One inline button that opens the drop-off.
    DropoffButton,
    /// Two inline buttons, one per duration choice.
    DurationButtons,
    /// A reply keyboard with the status question.
    StatusButton,
}

/// One button: the label shown, and the payload that pressing it sends back.
/// For a reply keyboard the payload is the label itself, sent as free text.
pub struct Button {
    pub label: String,
    pub payload: String,
}

impl View for Button {
    type V = (Seq<char>, Seq<char>);

    open spec fn view(&self) -> (Seq<char>, Seq<char>) {
        (self.label@, self.payload@)
    }
}

/// A rendered notification, ready for the transport.
pub struct Payload {
    pub text: Option<String>,
    pub photo: Option<String>,
    pub keyboard: Keyboard,
}

/// The mathematical shape of a [`Payload`].
pub struct PayloadView {
    pub text: Option<Seq<char>>,
    pub photo: Option<Seq<char>>,
    pub keyboard: Keyboard,
}

impl View for Payload {
    type V = PayloadView;

    open spec fn view(&self) -> PayloadView {
        PayloadView {
            text: match self.text {
                Some(ref t) => Some(t@),
                None => None,
            },
            photo: match self.photo {
                Some(ref p) => Some(p@),
                None => None,
            },
            keyboard: self.keyboard,
        }
    }
}

/// A configuration fault found while building the catalog.
#[derive(Clone, Copy, Debug, PartialEq, Eq, Structural)]
pub enum ConfigError {
    /// A photo rotation holds no file at all.
    EmptyRotation,
}

/// The decimal digit `d` (below ten) as a one-character text.
pub open spec fn digit_str(d: nat) -> Seq<char> {
    if d == 0 {
        "0"@
    } else if d == 1 {
        "1"@
    } else if d == 2 {
        "2"@
    } else if d == 3 {
        "3"@
    } else if d == 4 {
        "4"@
    } else if d == 5 {
        "5"@
    } else if d == 6 {
        "6"@
    } else if d == 7 {
        "7"@
    } else if d == 8 {
        "8"@
    } else {
        "9"@
    }
}

/// The decimal notation of `n`, most significant digit first, no leading
/// zero except for `n == 0` itself.
pub open spec fn spec_digits(n: nat) -> Seq<char>
    decreases n,
{
    if n < 10 {
        digit_str(n)
    } else {
        spec_digits(n / 10) + digit_str(n % 10)
    }
}

/// Write `n` in decimal.
pub fn u64_to_string(n: u64) -> (s: String)
    ensures
        s@ == spec_digits(n as nat),
    decreases n,
{
    let d: u64 = n % 10;
    let digit: &str = if d == 0 {
        "0"
    } else if d == 1 {
        "1"
    } else if d == 2 {
        "2"
    } else if d == 3 {
        "3"
    } else if d == 4 {
        "4"
    } else if d == 5 {
        "5"
    } else if d == 6 {
        "6"
    } else if d == 7 {
        "7"
    } else if d == 8 {
        "8"
    } else {
        "9"
    };
    if n < 10 {
        String::from_str(digit)
    } else {
        let mut s = u64_to_string(n / 10);
        s.append(digit);
        s
    }
}

/// The text of a notification, or `None` for the one kind that is a bare
/// photo. `Confirm(m)` spells the chosen wait out in minutes.
pub open spec fn notice_text(kind: Notice) -> Option<Seq<char>> {
    match kind {
        Notice::Welcome => Some("Добро пожаловать"@),
        Notice::Task => Some("Что можем помочь?"@),
        Notice::CommandList => Some(
            "Поддерживаемые команды:\n/help — этот текст.\n/start — старт."@,
        ),
        Notice::When => Some("Когда?"@),
        Notice::Confirm(m) => Some("Ждем через "@ + spec_digits(m as nat)),
        Notice::OneMoment => Some("Секундочку"@),
        Notice::RestPhoto => None,
        Notice::Reminder => Some("Не забудьте сдать собакена!"@),
        Notice::WalkPhoto => Some("Собакен на прогулке"@),
        Notice::PickupDone => Some("Ждем вас снова"@),
    }
}

/// The keyboard that accompanies a notification.
pub open spec fn notice_keyboard(kind: Notice) -> Keyboard {
    match kind {
        Notice::Welcome => Keyboard::Remove,
        Notice::Task => Keyboard::DropoffButton,
        Notice::When => Keyboard::DurationButtons,
        Notice::Reminder => Keyboard::StatusButton,
        _ => Keyboard::Plain,
    }
}

/// The buttons of a keyboard: label and payload pairs, in display order.
pub open spec fn spec_buttons(kb: Keyboard) -> Seq<(Seq<char>, Seq<char>)> {
    match kb {
        Keyboard::Plain => Seq::empty(),
        Keyboard::Remove => Seq::empty(),
        Keyboard::DropoffButton => seq![("Сдать собакена 🦮"@, "dropoff"@)],
        Keyboard::DurationButtons => seq![
            ("Через 10 минут"@, "10"@),
            ("Через час"@, "60"@),
        ],
        Keyboard::StatusButton => seq![("Как там мой собакен?"@, "Как там мой собакен?"@)],
    }
}

/// Build a keyboard's buttons.
pub fn keyboard_buttons(kb: Keyboard) -> (bs: Vec<Button>)
    ensures
        bs@.len() == spec_buttons(kb).len(),
        forall|i: int| 0 <= i < bs@.len() ==> bs@[i]@ == spec_buttons(kb)[i],
{
    match kb {
        Keyboard::Plain => Vec::new(),
        Keyboard::Remove => Vec::new(),
        Keyboard::DropoffButton => vec![
            Button {
                label: String::from_str("Сдать собакена 🦮"),
                payload: String::from_str("dropoff"),
            },
        ],
        Keyboard::DurationButtons => vec![
            Button {
                label: String::from_str("Через 10 минут"),
                payload: String::from_str("10"),
            },
            Button {
                label: String::from_str("Через час"),
                payload: String::from_str("60"),
            },
        ],
        Keyboard::StatusButton => vec![
            Button {
                label: String::from_str("Как там мой собакен?"),
                payload: String::from_str("Как там мой собакен?"),
            },
        ],
    }
}

/// Relies on rand's `SliceRandom::choose` over `thread_rng`: it returns a
/// reference to one element of the slice, and `None` exactly when the slice
/// is empty. Nothing is assumed about which element comes back.
#[verifier::external_body]
fn choose_one(list: &Vec<String>) -> (r: Option<String>)
    ensures
        (r is Some) <==> list@.len() > 0,
        r matches Some(s) ==> exists|i: int| 0 <= i < list@.len() && s@ == list@[i]@,
{
    list.as_slice().choose(&mut rand::thread_rng()).cloned()
}

/// Pick one photo of a non-empty rotation at random. Any element may come
/// back; no draw is ever outside the rotation.
pub fn random_photo(list: &Vec<String>) -> (p: String)
    requires
        list@.len() > 0,
    ensures
        exists|i: int| 0 <= i < list@.len() && p@ == list@[i]@,
{
    choose_one(list).unwrap()
}

/// The two photo rotations, each known non-empty.
pub struct Catalog {
    walk: Vec<String>,
    rest: Vec<String>,
}

/// The mathematical shape of a [`Catalog`]: each rotation as its file paths.
pub struct CatalogView {
    pub walk: Seq<Seq<char>>,
    pub rest: Seq<Seq<char>>,
}

impl View for Catalog {
    type V = CatalogView;

    closed spec fn view(&self) -> CatalogView {
        CatalogView { walk: self.walk.deep_view(), rest: self.rest.deep_view() }
    }
}

/// The built-in walk rotation.
pub open spec fn default_walk_photos() -> Seq<Seq<char>> {
    seq![
        "images/00020-1378581242.jpg"@,
        "images/00022-632562074.jpg"@,
        "images/00023-1357010347.jpg"@,
        "images/00029-1974425078.jpg"@,
        "images/00065-1572139399.jpg"@,
        "images/00066-2446649328.jpg"@,
        "images/00070-3953615447.jpg"@,
        "images/00073-4245297097.jpg"@,
        "images/00075-1564281374.jpg"@,
        "images/00076-1009691694.jpg"@,
    ]
}

/// The built-in resting rotation.
pub open spec fn default_rest_photos() -> Seq<Seq<char>> {
    seq![
        "images/00035-3425653837.jpg"@,
        "images/00036-1284626168.jpg"@,
        "images/00037-988796557.jpg"@,
        "images/00038-2520346606.jpg"@,
        "images/00078-1317528941.jpg"@,
        "images/00080-472880983.jpg"@,
        "images/00081-2778530334.jpg"@,
        "images/00082-4225865963.jpg"@,
        "images/00083-981580161.jpg"@,
        "images/00084-1287769773.jpg"@,
    ]
}

impl Catalog {
    /// Both rotations hold at least one file.
    pub open spec fn wf(&self) -> bool {
        self@.walk.len() > 0 && self@.rest.len() > 0
    }

    /// The catalog with the built-in rotations.
    pub fn new() -> (c: Catalog)
        ensures
            c.wf(),
            c@.walk == default_walk_photos(),
            c@.rest == default_rest_photos(),
    {
        let walk = vec![
            String::from_str("images/00020-1378581242.jpg"),
            String::from_str("images/00022-632562074.jpg"),
            String::from_str("images/00023-1357010347.jpg"),
            String::from_str("images/00029-1974425078.jpg"),
            String::from_str("images/00065-1572139399.jpg"),
            String::from_str("images/00066-2446649328.jpg"),
            String::from_str("images/00070-3953615447.jpg"),
            String::from_str("images/00073-4245297097.jpg"),
            String::from_str("images/00075-1564281374.jpg"),
            String::from_str("images/00076-1009691694.jpg"),
        ];
        let rest = vec![
            String::from_str("images/00035-3425653837.jpg"),
            String::from_str("images/00036-1284626168.jpg"),
            String::from_str("images/00037-988796557.jpg"),
            String::from_str("images/00038-2520346606.jpg"),
            String::from_str("images/00078-1317528941.jpg"),
            String::from_str("images/00080-472880983.jpg"),
            String::from_str("images/00081-2778530334.jpg"),
            String::from_str("images/00082-4225865963.jpg"),
            String::from_str("images/00083-981580161.jpg"),
            String::from_str("images/00084-1287769773.jpg"),
        ];
        let c = Catalog { walk, rest };
        proof {
            assert(c@.walk =~= default_walk_photos());
            assert(c@.rest =~= default_rest_photos());
        }
        c
    }

    /// A catalog over caller-supplied rotations. An empty rotation is a
    /// configuration fault and nothing is built.
    pub fn with_rotations(walk: Vec<String>, rest: Vec<String>) -> (r: Result<Catalog, ConfigError>)
        ensures
            (r is Ok) <==> (walk@.len() > 0 && rest@.len() > 0),
            r matches Ok(c) ==> c.wf() && c@.walk == walk.deep_view() && c@.rest == rest.deep_view(),
            r matches Err(e) ==> e == ConfigError::EmptyRotation,
    {
        if walk.len() == 0 || rest.len() == 0 {
            Err(ConfigError::EmptyRotation)
        } else {
            Ok(Catalog { walk, rest })
        }
    }

    /// Render one notification: the text of [`notice_text`], the keyboard of
    /// [`notice_keyboard`], and for the two photo kinds some file of the
    /// matching rotation; every other kind carries no photo.
    pub fn render(&self, kind: Notice) -> (p: Payload)
        requires
            self.wf(),
        ensures
            p@.text == notice_text(kind),
            p@.keyboard == notice_keyboard(kind),
            kind is RestPhoto ==> (p@.photo matches Some(ph)
                && exists|i: int| 0 <= i < self@.rest.len() && ph == self@.rest[i]),
            kind is WalkPhoto ==> (p@.photo matches Some(ph)
                && exists|i: int| 0 <= i < self@.walk.len() && ph == self@.walk[i]),
            !(kind is RestPhoto || kind is WalkPhoto) ==> p@.photo is None,
    {
        match kind {
            Notice::Welcome => Payload {
                text: Some(String::from_str("Добро пожаловать")),
                photo: None,
                keyboard: Keyboard::Remove,
            },
            Notice::Task => Payload {
                text: Some(String::from_str("Что можем помочь?")),
                photo: None,
                keyboard: Keyboard::DropoffButton,
            },
            Notice::CommandList => Payload {
                text: Some(
                    String::from_str("Поддерживаемые команды:\n/help — этот текст.\n/start — старт."),
                ),
                photo: None,
                keyboard: Keyboard::Plain,
            },
            Notice::When => Payload {
                text: Some(String::from_str("Когда?")),
                photo: None,
                keyboard: Keyboard::DurationButtons,
            },
            Notice::Confirm(m) => {
                let mut t = String::from_str("Ждем через ");
                let digits = u64_to_string(m);
                t.append(digits.as_str());
                Payload { text: Some(t), photo: None, keyboard: Keyboard::Plain }
            },
            Notice::OneMoment => Payload {
                text: Some(String::from_str("Секундочку")),
                photo: None,
                keyboard: Keyboard::Plain,
            },
            Notice::RestPhoto => {
                let ph = random_photo(&self.rest);
                proof {
                    let i = choose|i: int|
                        0 <= i < self.rest@.len() && ph@ == self.rest@[i]@;
                    assert(self@.rest[i] == ph@);
                }
                Payload { text: None, photo: Some(ph), keyboard: Keyboard::Plain }
            },
            Notice::Reminder => Payload {
                text: Some(String::from_str("Не забудьте сдать собакена!")),
                photo: None,
                keyboard: Keyboard::StatusButton,
            },
            Notice::WalkPhoto => {
                let ph = random_photo(&self.walk);
                proof {
                    let i = choose|i: int|
                        0 <= i < self.walk@.len() && ph@ == self.walk@[i]@;
                    assert(self@.walk[i] == ph@);
                }
                Payload {
                    text: Some(String::from_str("Собакен на прогулке")),
                    photo: Some(ph),
                    keyboard: Keyboard::Plain,
                }
            },
            Notice::PickupDone => Payload {
                text: Some(String::from_str("Ждем вас снова")),
                photo: None,
                keyboard: Keyboard::Plain,
            },
        }
    }
}

} // verus!
