//! The first front end: a window that connects to the trace server on demand,
//! keeps every record the server sends, shows the newest one, and draws the
//! direction of the traffic as two arrows.

use vstd::prelude::*;
use crate::text::{bool_text, bool_word, char_text, decimal, parse_decimal, u16_text, lemma_decimal_round_trip};

verus! {

/// `"ws://ws.ceyraud.com:80"`: the server that the first front end connects to.
pub open spec fn example_server_url() -> Seq<char> {
    seq!['w', 's', ':', '/', '/', 'w', 's', '.', 'c', 'e', 'y', 'r', 'a', 'u', 'd', '.', 'c', 'o', 'm', ':', '8', '0']
}

/// `"upload"`
pub open spec fn upload_word() -> Seq<char> {
    seq!['u', 'p', 'l', 'o', 'a', 'd']
}

/// `"download"`
pub open spec fn download_word() -> Seq<char> {
    seq!['d', 'o', 'w', 'n', 'l', 'o', 'a', 'd']
}

/// `"data"`
pub open spec fn data_word() -> Seq<char> {
    seq!['d', 'a', 't', 'a']
}

/// `"Test"`
pub open spec fn test_word() -> Seq<char> {
    seq!['T', 'e', 's', 't']
}

/// A record that the server sends.
pub struct MitiIn {
    pub direction: String,
    pub rate: u16,
    pub text: char,
    pub roaming: bool,
}

impl MitiIn {
    /// A copy of the record, equal to it field by field.
    pub fn duplicate(&self) -> (r: MitiIn)
        ensures
            r == *self,
    {
        MitiIn {
            direction: self.direction.clone(),
            rate: self.rate,
            text: self.text,
            roaming: self.roaming,
        }
    }
}

/// The request that the front end sends to the server.
pub struct MitiOut {
    pub request: String,
    pub index: u16,
    pub test: String,
}

impl MitiOut {
    /// The one request the front end sends: `data`, index 12, `Test`.
    pub fn new() -> (r: Self)
        ensures
            r.request@ == data_word(),
            r.index == 12,
            r.test@ == test_word(),
            r.request@ == seq!['d', 'a', 't', 'a'],
            r.test@ == seq!['T', 'e', 's', 't'],
    {
        let request = "data".to_owned();
        let test = "Test".to_owned();
        proof {
            reveal_strlit("data");
            reveal_strlit("Test");
        }
        assert(request@ =~= data_word());
        assert(test@ =~= test_word());
        MitiOut { request, index: 12, test }
    }
}

/// The colour of the up arrow.
#[derive(Clone, Copy, Debug, PartialEq, Eq, Structural)]
pub enum UplinkIcon {
    Black,
    Blue,
}

/// The colour of the down arrow.
#[derive(Clone, Copy, Debug, PartialEq, Eq, Structural)]
pub enum DownlinkIcon {
    Black,
    Green,
}

/// The lines of the "Printing Output" window: nothing before the first
/// record; then the direction, the rate, the character and the roaming flag
/// of the newest record, each written as `to_string` writes it.
pub open spec fn spec_printing_output(m_in: Option<MitiIn>) -> Seq<Seq<char>> {
    match m_in {
        Some(m) => seq![m.direction@, decimal(m.rate as nat), seq![m.text], bool_word(m.roaming)],
        None => Seq::empty(),
    }
}

/// The arrows of the "Direction Window": a blue up arrow for an upload, a
/// green down arrow for a download, two black arrows otherwise and before the
/// first record.
pub open spec fn spec_direction_icons(m_in: Option<MitiIn>) -> (UplinkIcon, DownlinkIcon) {
    match m_in {
        Some(m) => if m.direction@ == upload_word() {
            (UplinkIcon::Blue, DownlinkIcon::Black)
        } else if m.direction@ == download_word() {
            (UplinkIcon::Black, DownlinkIcon::Green)
        } else {
            (UplinkIcon::Black, DownlinkIcon::Black)
        },
        None => (UplinkIcon::Black, DownlinkIcon::Black),
    }
}

/// The window that shows the newest record.
pub struct InWindow {
    pub m_in: Option<MitiIn>,
}

impl Default for InWindow {
    fn default() -> (r: Self)
        ensures
            r.m_in is None,
    {
        InWindow { m_in: None }
    }
}

impl InWindow {
    /// Shows `msg_in` from now on.
    pub fn update_in(&mut self, msg_in: MitiIn)
        ensures
            final(self).m_in == Some(msg_in),
    {
        self.m_in = Some(msg_in);
    }

    /// The lines that the "Printing Output" window shows.
    pub fn printing_output(&self) -> (labels: Vec<String>)
        ensures
            labels@.map_values(|s: String| s@) == spec_printing_output(self.m_in),
    {
        let mut labels: Vec<String> = Vec::new();
        match &self.m_in {
            Some(msg_in) => {
                labels.push(msg_in.direction.clone());
                labels.push(u16_text(msg_in.rate));
                labels.push(char_text(msg_in.text));
                labels.push(bool_text(msg_in.roaming));
            },
            None => {},
        }
        assert(labels@.map_values(|s: String| s@) =~= spec_printing_output(self.m_in));
        labels
    }

    /// The two arrows that the "Direction Window" shows.
    pub fn direction_icons(&self) -> (icons: (UplinkIcon, DownlinkIcon))
        ensures
            icons == spec_direction_icons(self.m_in),
    {
        match &self.m_in {
            Some(msg_in) => {
                let upload = "upload".to_owned();
                let download = "download".to_owned();
                proof {
                    reveal_strlit("upload");
                    reveal_strlit("download");
                }
                assert(upload@ =~= upload_word());
                assert(download@ =~= download_word());
                if msg_in.direction == upload {
                    (UplinkIcon::Blue, DownlinkIcon::Black)
                } else if msg_in.direction == download {
                    (UplinkIcon::Black, DownlinkIcon::Green)
                } else {
                    (UplinkIcon::Black, DownlinkIcon::Black)
                }
            },
            None => (UplinkIcon::Black, DownlinkIcon::Black),
        }
    }
}

/// The "Printing Output" window shows, for a record, exactly four lines:
/// its direction as it is, its rate in decimal digits that read back as that
/// rate, its character alone, and the word of its roaming flag; each line
/// depends on its own field only. Before the first record it shows nothing.
pub proof fn lemma_printing_output_lines(m: MitiIn)
    ensures
        spec_printing_output(None).len() == 0,
        spec_printing_output(Some(m)).len() == 4,
        spec_printing_output(Some(m))[0] == m.direction@,
        parse_decimal(spec_printing_output(Some(m))[1]) == Some(m.rate as nat),
        spec_printing_output(Some(m))[1] == decimal(m.rate as nat),
        spec_printing_output(Some(m))[2] == seq![m.text],
        spec_printing_output(Some(m))[3] == if m.roaming {
            seq!['t', 'r', 'u', 'e']
        } else {
            seq!['f', 'a', 'l', 's', 'e']
        },
{
    lemma_decimal_round_trip(m.rate as nat);
}

/// The arrows depend on the direction alone: `"upload"` gives a blue up
/// arrow, `"download"` a green down arrow, any other direction and no record
/// two black arrows, whatever the rate, character and roaming flag.
pub proof fn lemma_direction_icons_by_direction(m: MitiIn, n: MitiIn)
    ensures
        m.direction@ == seq!['u', 'p', 'l', 'o', 'a', 'd'] ==> spec_direction_icons(Some(m)) == (
        UplinkIcon::Blue, DownlinkIcon::Black),
        m.direction@ == seq!['d', 'o', 'w', 'n', 'l', 'o', 'a', 'd'] ==> spec_direction_icons(Some(m))
            == (UplinkIcon::Black, DownlinkIcon::Green),
        m.direction@ != seq!['u', 'p', 'l', 'o', 'a', 'd'] && m.direction@ != seq![
            'd',
            'o',
            'w',
            'n',
            'l',
            'o',
            'a',
            'd',
        ] ==> spec_direction_icons(Some(m)) == (UplinkIcon::Black, DownlinkIcon::Black),
        spec_direction_icons(None) == (UplinkIcon::Black, DownlinkIcon::Black),
        m.direction@ == n.direction@ ==> spec_direction_icons(Some(m)) == spec_direction_icons(
            Some(n),
        ),
{
}

/// The part of the first front end that lives while a connection is open:
/// every record received so far, and the window that shows the newest.
pub struct FrontSocket {
    events: Vec<MitiIn>,
    in_window: InWindow,
}

impl FrontSocket {
    /// The records received so far, oldest first.
    pub closed spec fn spec_events(&self) -> Seq<MitiIn> {
        self.events@
    }

    /// The record that the windows show.
    pub closed spec fn spec_shown(&self) -> Option<MitiIn> {
        self.in_window.m_in
    }

    /// The windows show the newest record received, and nothing before the
    /// first one.
    pub open spec fn wf(&self) -> bool {
        self.spec_shown() == if self.spec_events().len() == 0 {
            None::<MitiIn>
        } else {
            Some(self.spec_events().last())
        }
    }

    /// A connection that has received nothing yet.
    pub fn new() -> (r: Self)
        ensures
            r.wf(),
            r.spec_events() == Seq::<MitiIn>::empty(),
            r.spec_shown() is None,
    {
        FrontSocket { events: Vec::new(), in_window: InWindow::default() }
    }

    /// Takes in a record read from a text message: it is kept after all the
    /// earlier ones and shown from now on.
    pub fn receive(&mut self, resp: MitiIn)
        ensures
            final(self).spec_events() == old(self).spec_events().push(resp),
            final(self).spec_shown() == Some(resp),
            final(self).wf(),
    {
        self.events.push(resp);
        let last = self.events.len() - 1;
        let shown = self.events[last].duplicate();
        self.in_window.update_in(shown);
    }

    /// The number of records received so far.
    pub fn event_count(&self) -> (n: usize)
        ensures
            n == self.spec_events().len(),
    {
        self.events.len()
    }

    /// The window that shows the newest record.
    pub fn in_window(&self) -> (w: &InWindow)
        ensures
            w.m_in == self.spec_shown(),
    {
        &self.in_window
    }
}

/// Whatever records a connection receives, one after the other, its windows
/// show the last of them: receiving keeps the front socket well formed.
pub proof fn lemma_receive_shows_newest(before: FrontSocket, resp: MitiIn, after: FrontSocket)
    requires
        before.wf(),
        after.spec_events() == before.spec_events().push(resp),
        after.wf(),
    ensures
        after.spec_shown() == Some(resp),
        after.spec_events().len() == before.spec_events().len() + 1,
{
}

/// The first front end.
pub struct ExampleApp {
    url: String,
    error: String,
    frontsocket: Option<FrontSocket>,
}

impl Default for ExampleApp {
    fn default() -> (r: Self)
        ensures
            r.spec_url() == example_server_url(),
            r.spec_url() == seq![
                'w', 's', ':', '/', '/', 'w', 's', '.', 'c', 'e', 'y', 'r', 'a', 'u', 'd', '.', 'c', 'o', 'm', ':', '8', '0'
            ],
            r.spec_error() == Seq::<char>::empty(),
            r.spec_frontsocket() is None,
    {
        let url = "ws://ws.ceyraud.com:80".to_owned();
        proof {
            reveal_strlit("ws://ws.ceyraud.com:80");
        }
        assert(url@ =~= example_server_url());
        ExampleApp { url, error: String::new(), frontsocket: None }
    }
}

impl ExampleApp {
    /// The address of the server.
    pub closed spec fn spec_url(&self) -> Seq<char> {
        self.url@
    }

    /// The message of the last failed connection, empty where there is none.
    pub closed spec fn spec_error(&self) -> Seq<char> {
        self.error@
    }

    /// The open connection's state, if there is one.
    pub closed spec fn spec_frontsocket(&self) -> Option<FrontSocket> {
        self.frontsocket
    }

    /// The address to connect to.
    pub fn url(&self) -> (u: &String)
        ensures
            u@ == self.spec_url(),
    {
        &self.url
    }

    /// The message of the last failed connection.
    pub fn error(&self) -> (e: &String)
        ensures
            e@ == self.spec_error(),
    {
        &self.error
    }

    /// Whether the error panel is shown: exactly when there is an error message.
    pub fn show_error(&self) -> (b: bool)
        ensures
            b == (self.spec_error().len() > 0),
    {
        !self.error.as_str().is_empty()
    }

    /// Takes the outcome of a connection attempt to the server. On success a
    /// fresh connection state replaces the old one and the error is cleared;
    /// on failure the error message is kept and nothing else changes.
    pub fn connect(&mut self, outcome: Result<(), String>)
        ensures
            final(self).spec_url() == old(self).spec_url(),
            match outcome {
                Ok(()) => {
                    &&& final(self).spec_error() == Seq::<char>::empty()
                    &&& final(self).spec_frontsocket() matches Some(fs)
                    &&& fs.wf()
                    &&& fs.spec_events() == Seq::<MitiIn>::empty()
                },
                Err(e) => {
                    &&& final(self).spec_error() == e@
                    &&& final(self).spec_frontsocket() == old(self).spec_frontsocket()
                },
            },
    {
        match outcome {
            Ok(()) => {
                self.frontsocket = Some(FrontSocket::new());
                self.error = String::new();
            },
            Err(error) => {
                self.error = error;
            },
        }
    }

    /// The open connection's state, if there is one.
    pub fn frontsocket(&self) -> (fs: Option<&FrontSocket>)
        ensures
            match self.spec_frontsocket() {
                Some(s) => fs == Some(&s),
                None => fs is None,
            },
    {
        match &self.frontsocket {
            Some(s) => Some(s),
            None => None,
        }
    }

    /// Hands a record read from the open connection to its state; without
    /// an open connection there is nothing to take it and it is dropped.
    pub fn receive(&mut self, resp: MitiIn)
        ensures
            final(self).spec_url() == old(self).spec_url(),
            final(self).spec_error() == old(self).spec_error(),
            match old(self).spec_frontsocket() {
                Some(fs) => final(self).spec_frontsocket() matches Some(after) && {
                    &&& after.spec_events() == fs.spec_events().push(resp)
                    &&& after.spec_shown() == Some(resp)
                    &&& after.wf()
                },
                None => final(self).spec_frontsocket() is None,
            },
    {
        match &mut self.frontsocket {
            Some(fs) => fs.receive(resp),
            None => {},
        }
    }
}

} // verus!
