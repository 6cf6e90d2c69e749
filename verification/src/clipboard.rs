//! The clipboard: one dispatcher over the per-display-server backends,
//! and the selection-contents model the backends share.
//!
//! A selection is a set of representations of one datum, each under a
//! format identifier (a MIME type). Putting data replaces the whole
//! selection; readers ask for a preferred format out of those on offer or
//! fetch one representation by its identifier.

use vstd::prelude::*;
use vstd::string::StringSliceAdditionalSpecFns;

verus! {

/// One representation of the clipboard datum: the format's identifier and
/// the bytes of the datum in that format.
#[derive(Debug, Clone)]
pub struct ClipboardFormat {
    pub identifier: String,
    pub data: Vec<u8>,
}

impl ClipboardFormat {
    pub fn new(identifier: &str, data: Vec<u8>) -> (f: ClipboardFormat)
        ensures
            f.identifier@ == identifier@,
            f.data == data,
    {
        ClipboardFormat { identifier: identifier.to_owned(), data }
    }
}

/// The format identifier a plain string is offered under.
pub open spec fn spec_text_format() -> Seq<char> {
    "text/plain;charset=utf-8"@
}

/// The identifiers of the formats, in offer order.
pub open spec fn spec_identifiers(formats: Seq<ClipboardFormat>) -> Seq<Seq<char>> {
    formats.map_values(|f: ClipboardFormat| f.identifier@)
}

/// Whether some format in `formats` is offered under `identifier`.
pub open spec fn spec_has_format(formats: Seq<ClipboardFormat>, identifier: Seq<char>) -> bool {
    exists|i: int| 0 <= i < formats.len() && formats[i].identifier@ == identifier
}

/// The current selection of one display server's clipboard, as this layer
/// tracks it: the string put last, if the selection holds a string, and
/// the formats on offer.
#[derive(Debug, Clone)]
pub struct ClipboardSelection {
    string: Option<String>,
    formats: Vec<ClipboardFormat>,
}

impl ClipboardSelection {
    pub closed spec fn spec_string(self) -> Option<Seq<char>> {
        match self.string {
            Some(s) => Some(s@),
            None => None,
        }
    }

    pub closed spec fn spec_formats(self) -> Seq<ClipboardFormat> {
        self.formats@
    }

    pub fn new() -> (c: ClipboardSelection)
        ensures
            c.spec_string() is None,
            c.spec_formats() == Seq::<ClipboardFormat>::empty(),
    {
        ClipboardSelection { string: None, formats: Vec::new() }
    }

    /// Replace the selection with one string, offered under the plain-text
    /// format.
    pub fn put_string(&mut self, s: &str)
        ensures
            final(self).spec_string() == Some(s@),
            final(self).spec_formats().len() == 1,
            final(self).spec_formats()[0].identifier@ == spec_text_format(),
            final(self).spec_formats()[0].data@ == s.spec_bytes(),
    {
        let data = string_bytes(s);
        let format = ClipboardFormat::new("text/plain;charset=utf-8", data);
        self.string = Some(s.to_owned());
        let mut formats: Vec<ClipboardFormat> = Vec::new();
        formats.push(format);
        self.formats = formats;
    }

    /// Replace the selection with the given representations, dropping any
    /// string put earlier.
    pub fn put_formats(&mut self, formats: Vec<ClipboardFormat>)
        ensures
            final(self).spec_string() is None,
            final(self).spec_formats() == formats@,
    {
        self.string = None;
        self.formats = formats;
    }

    /// The selection's string, if the selection holds one.
    pub fn get_string(&self) -> (r: Option<String>)
        ensures
            (match r {
                Some(s) => self.spec_string() == Some(s@),
                None => self.spec_string() is None,
            }),
    {
        match &self.string {
            Some(s) => Some(s.clone()),
            None => None,
        }
    }

    /// The first of the requested identifiers that the selection offers,
    /// in the caller's preference order; `None` when none is offered.
    pub fn preferred_format(&self, identifiers: &Vec<String>) -> (r: Option<String>)
        ensures
            (match r {
                Some(id) => {
                    &&& exists|i: int|
                        0 <= i < identifiers@.len() && identifiers@[i]@ == id@
                    &&& spec_has_format(self.spec_formats(), id@)
                    &&& exists|i: int|
                        {
                            &&& 0 <= i < identifiers@.len()
                            &&& identifiers@[i]@ == id@
                            &&& forall|j: int|
                                0 <= j < i ==> !spec_has_format(
                                    self.spec_formats(),
                                    #[trigger] identifiers@[j]@,
                                )
                        }
                },
                None => forall|i: int|
                    0 <= i < identifiers@.len() ==> !spec_has_format(
                        self.spec_formats(),
                        #[trigger] identifiers@[i]@,
                    ),
            }),
    {
        let mut i: usize = 0;
        while i < identifiers.len()
            invariant
                0 <= i <= identifiers@.len(),
                forall|j: int|
                    0 <= j < i ==> !spec_has_format(
                        self.spec_formats(),
                        #[trigger] identifiers@[j]@,
                    ),
            decreases identifiers@.len() - i,
        {
            if self.has_format(&identifiers[i]) {
                return Some(identifiers[i].clone());
            }
            i = i + 1;
        }
        None
    }

    /// Whether the selection offers a representation under `identifier`.
    pub fn has_format(&self, identifier: &String) -> (b: bool)
        ensures
            b == spec_has_format(self.spec_formats(), identifier@),
    {
        let mut i: usize = 0;
        while i < self.formats.len()
            invariant
                0 <= i <= self.formats@.len(),
                forall|j: int| 0 <= j < i ==> self.formats@[j].identifier@ != identifier@,
            decreases self.formats@.len() - i,
        {
            if self.formats[i].identifier == *identifier {
                return true;
            }
            i = i + 1;
        }
        false
    }

    /// The bytes of the representation offered under `identifier`, if
    /// any; the first matching offer wins.
    pub fn get_format(&self, identifier: &String) -> (r: Option<Vec<u8>>)
        ensures
            r is Some <==> spec_has_format(self.spec_formats(), identifier@),
            r matches Some(data) ==> exists|i: int|
                {
                    &&& 0 <= i < self.spec_formats().len()
                    &&& self.spec_formats()[i].identifier@ == identifier@
                    &&& self.spec_formats()[i].data@ == data@
                    &&& forall|j: int|
                        0 <= j < i ==> #[trigger] self.spec_formats()[j].identifier@
                            != identifier@
                },
    {
        let mut i: usize = 0;
        while i < self.formats.len()
            invariant
                0 <= i <= self.formats@.len(),
                forall|j: int| 0 <= j < i ==> #[trigger] self.formats@[j].identifier@
                    != identifier@,
            decreases self.formats@.len() - i,
        {
            if self.formats[i].identifier == *identifier {
                let data = self.formats[i].data.clone();
                proof {
                    assert forall|k: int| 0 <= k < data@.len() implies data@[k]
                        == self.formats@[i as int].data@[k] by {}
                    assert(data@ =~= self.formats@[i as int].data@);
                    assert(self.spec_formats() == self.formats@);
                    assert forall|j: int| 0 <= j < i implies #[trigger] self.spec_formats(
                    )[j].identifier@ != identifier@ by {
                        assert(self.formats@[j].identifier@ != identifier@);
                    }
                    assert(0 <= i < self.spec_formats().len() && self.spec_formats()[
                        i as int
                    ].identifier@ == identifier@ && self.spec_formats()[i as int].data@ == data@);
                }
                return Some(data);
            }
            i = i + 1;
        }
        None
    }

    /// The identifiers of every format on offer, in offer order.
    pub fn available_type_names(&self) -> (names: Vec<String>)
        ensures
            names@.map_values(|n: String| n@) == spec_identifiers(
                self.spec_formats(),
            ).map_values(|s: Seq<char>| s),
            names@.len() == self.spec_formats().len(),
            forall|i: int| 0 <= i < names@.len() ==> #[trigger] names@[i]@
                == self.spec_formats()[i].identifier@,
    {
        let mut names: Vec<String> = Vec::new();
        let mut i: usize = 0;
        while i < self.formats.len()
            invariant
                0 <= i <= self.formats@.len(),
                names@.len() == i,
                forall|j: int| 0 <= j < i ==> #[trigger] names@[j]@
                    == self.formats@[j].identifier@,
            decreases self.formats@.len() - i,
        {
            names.push(self.formats[i].identifier.clone());
            i = i + 1;
        }
        proof {
            assert(names@.map_values(|n: String| n@) =~= spec_identifiers(
                self.spec_formats(),
            ).map_values(|s: Seq<char>| s));
        }
        names
    }
}

/// The clipboard, dispatching to whichever display-server backend the
/// application connected with.
#[derive(Debug, Clone)]
pub enum Clipboard {
    X11(ClipboardSelection),
    Wayland(ClipboardSelection),
}

impl Clipboard {
    /// The backend selection behind the dispatcher.
    pub open spec fn spec_selection(self) -> ClipboardSelection {
        match self {
            Clipboard::X11(c) => c,
            Clipboard::Wayland(c) => c,
        }
    }

    /// Whether `self` and `other` are the same backend.
    pub open spec fn spec_same_backend(self, other: Clipboard) -> bool {
        (self is X11 <==> other is X11)
    }

    /// Put a string on the clipboard, replacing the whole selection.
    pub fn put_string(&mut self, s: &str)
        ensures
            final(self).spec_same_backend(*old(self)),
            final(self).spec_selection().spec_string() == Some(s@),
    {
        match self {
            Clipboard::X11(clipboard) => {
                clipboard.put_string(s);
            },
            Clipboard::Wayland(clipboard) => {
                clipboard.put_string(s);
            },
        }
    }

    /// Put representations on the clipboard, replacing the whole
    /// selection.
    pub fn put_formats(&mut self, formats: Vec<ClipboardFormat>)
        ensures
            final(self).spec_same_backend(*old(self)),
            final(self).spec_selection().spec_string() is None,
            final(self).spec_selection().spec_formats() == formats@,
    {
        match self {
            Clipboard::X11(clipboard) => {
                clipboard.put_formats(formats);
            },
            Clipboard::Wayland(clipboard) => {
                clipboard.put_formats(formats);
            },
        }
    }

    /// The selection's string, if it holds one.
    pub fn get_string(&self) -> (r: Option<String>)
        ensures
            (match r {
                Some(s) => self.spec_selection().spec_string() == Some(s@),
                None => self.spec_selection().spec_string() is None,
            }),
    {
        match self {
            Clipboard::X11(clipboard) => clipboard.get_string(),
            Clipboard::Wayland(clipboard) => clipboard.get_string(),
        }
    }

    /// The first requested identifier the selection offers.
    pub fn preferred_format(&self, identifiers: &Vec<String>) -> (r: Option<String>)
        ensures
            r is Some ==> exists|i: int|
                0 <= i < identifiers@.len() && spec_has_format(
                    self.spec_selection().spec_formats(),
                    #[trigger] identifiers@[i]@,
                ),
            r is None ==> forall|i: int|
                0 <= i < identifiers@.len() ==> !spec_has_format(
                    self.spec_selection().spec_formats(),
                    #[trigger] identifiers@[i]@,
                ),
    {
        match self {
            Clipboard::X11(clipboard) => clipboard.preferred_format(identifiers),
            Clipboard::Wayland(clipboard) => clipboard.preferred_format(identifiers),
        }
    }

    /// The bytes offered under `identifier`, if any.
    pub fn get_format(&self, identifier: &String) -> (r: Option<Vec<u8>>)
        ensures
            r is Some <==> spec_has_format(self.spec_selection().spec_formats(), identifier@),
    {
        match self {
            Clipboard::X11(clipboard) => clipboard.get_format(identifier),
            Clipboard::Wayland(clipboard) => clipboard.get_format(identifier),
        }
    }

    /// The identifiers of every format on offer.
    pub fn available_type_names(&self) -> (names: Vec<String>)
        ensures
            names@.len() == self.spec_selection().spec_formats().len(),
            forall|i: int| 0 <= i < names@.len() ==> #[trigger] names@[i]@
                == self.spec_selection().spec_formats()[i].identifier@,
    {
        match self {
            Clipboard::X11(clipboard) => clipboard.available_type_names(),
            Clipboard::Wayland(clipboard) => clipboard.available_type_names(),
        }
    }
}

/// The UTF-8 bytes of a string, as a fresh vector.
fn string_bytes(s: &str) -> (r: Vec<u8>)
    ensures
        r@ == s.spec_bytes(),
{
    vstd::slice::slice_to_vec(s.as_bytes())
}

} // verus!
