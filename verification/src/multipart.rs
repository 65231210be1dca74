//! Multipart form parsing: one pass over the parts in arrival order,
//! dispatching on each part's declared field name.  Text fields must decode
//! as UTF-8, an empty avatar URL or image payload counts as absent, a
//! non-empty image payload must sniff as PNG, and a part without a name
//! fails the whole parse.

use vstd::prelude::*;
use vstd::utf8::{decode_utf8, valid_utf8};
use crate::encoding::{base64_encode, base64_of, utf8_decode};
use crate::error::{form_error, spec_form_error, spec_invalid_image_format_error, AppError,
    ErrorView};
use crate::image_format::{is_png_signature, validate_bytes_as_png};

verus! {

/// One part of a multipart body: its declared field name, if any, and its
/// raw content bytes, as handed over by the transport.
#[derive(Debug, PartialEq, Eq)]
pub struct RawPart {
    pub name: Option<String>,
    pub data: Vec<u8>,
}

/// Mathematical image of a [`RawPart`].
pub struct PartView {
    pub name: Option<Seq<char>>,
    pub data: Seq<u8>,
}

impl View for RawPart {
    type V = PartView;

    open spec fn view(&self) -> PartView {
        PartView { name: self.name.deep_view(), data: self.data@ }
    }
}

impl DeepView for RawPart {
    type V = PartView;

    open spec fn deep_view(&self) -> PartView {
        self.view()
    }
}

/// The four logical fields of one submission, as extracted from the form.
#[derive(Debug, PartialEq, Eq)]
pub struct MultipartData {
    pub author_username: String,
    pub text: String,
    pub avatar_url: Option<String>,
    pub image_base64: Option<String>,
}

/// Mathematical image of a [`MultipartData`].
pub struct MultipartDataView {
    pub author_username: Seq<char>,
    pub text: Seq<char>,
    pub avatar_url: Option<Seq<char>>,
    pub image_base64: Option<Seq<char>>,
}

impl View for MultipartData {
    type V = MultipartDataView;

    open spec fn view(&self) -> MultipartDataView {
        MultipartDataView {
            author_username: self.author_username@,
            text: self.text@,
            avatar_url: self.avatar_url.deep_view(),
            image_base64: self.image_base64.deep_view(),
        }
    }
}

/// The record a parse starts from: required fields empty, optional absent.
pub open spec fn spec_empty_submission() -> MultipartDataView {
    MultipartDataView {
        author_username: Seq::<char>::empty(),
        text: Seq::<char>::empty(),
        avatar_url: None,
        image_base64: None,
    }
}

/// How one part updates the record so far, or fails the parse: an unnamed
/// part or undecodable text is a form error, an empty optional value is
/// normalized to absent, a non-empty image must sniff as PNG and is stored
/// base64-encoded, and a field of any other name is ignored.
pub open spec fn spec_apply_part(acc: MultipartDataView, part: PartView) -> Result<
    MultipartDataView,
    ErrorView,
> {
    match part.name {
        None => Err(spec_form_error()),
        Some(name) => if name == "text"@ {
            if valid_utf8(part.data) {
                Ok(
                    MultipartDataView {
                        text: decode_utf8(part.data),
                        author_username: acc.author_username,
                        avatar_url: acc.avatar_url,
                        image_base64: acc.image_base64,
                    },
                )
            } else {
                Err(spec_form_error())
            }
        } else if name == "author_username"@ {
            if valid_utf8(part.data) {
                Ok(
                    MultipartDataView {
                        author_username: decode_utf8(part.data),
                        text: acc.text,
                        avatar_url: acc.avatar_url,
                        image_base64: acc.image_base64,
                    },
                )
            } else {
                Err(spec_form_error())
            }
        } else if name == "image"@ {
            if part.data.len() == 0 {
                Ok(
                    MultipartDataView {
                        image_base64: None,
                        author_username: acc.author_username,
                        text: acc.text,
                        avatar_url: acc.avatar_url,
                    },
                )
            } else if is_png_signature(part.data) {
                Ok(
                    MultipartDataView {
                        image_base64: Some(base64_of(part.data)),
                        author_username: acc.author_username,
                        text: acc.text,
                        avatar_url: acc.avatar_url,
                    },
                )
            } else {
                Err(spec_invalid_image_format_error())
            }
        } else if name == "avatar_url"@ {
            if valid_utf8(part.data) {
                Ok(
                    MultipartDataView {
                        avatar_url: if decode_utf8(part.data).len() == 0 {
                            None
                        } else {
                            Some(decode_utf8(part.data))
                        },
                        author_username: acc.author_username,
                        text: acc.text,
                        image_base64: acc.image_base64,
                    },
                )
            } else {
                Err(spec_form_error())
            }
        } else {
            Ok(acc)
        },
    }
}

/// Folding the parts from position `i` onward over the record `acc`,
/// stopping at the first failure.
pub open spec fn spec_parse_from(
    parts: Seq<PartView>,
    i: int,
    acc: MultipartDataView,
) -> Result<MultipartDataView, ErrorView>
    decreases parts.len() - i,
{
    if i < 0 || i >= parts.len() {
        Ok(acc)
    } else {
        match spec_apply_part(acc, parts[i]) {
            Ok(next) => spec_parse_from(parts, i + 1, next),
            Err(e) => Err(e),
        }
    }
}

/// What parsing a whole multipart body means: every part applied in arrival
/// order, last write winning, the first failure ending the parse.
pub open spec fn spec_parse_multipart(parts: Seq<PartView>) -> Result<
    MultipartDataView,
    ErrorView,
> {
    spec_parse_from(parts, 0, spec_empty_submission())
}

/// Extract the four logical fields from the parts of a multipart body.
pub fn parse_multipart(parts: Vec<RawPart>) -> (r: Result<MultipartData, AppError>)
    ensures
        spec_parse_multipart(parts.deep_view()) matches Ok(sub) ==> (r matches Ok(d) && d@
            == sub),
        spec_parse_multipart(parts.deep_view()) matches Err(e) ==> (r matches Err(err) && err@
            == e),
{
    let ghost pv = parts.deep_view();
    let mut data = MultipartData {
        author_username: String::new(),
        text: String::new(),
        avatar_url: None,
        image_base64: None,
    };
    let n = parts.len();
    let mut i: usize = 0;
    while i < n
        invariant
            n == parts@.len(),
            pv == parts.deep_view(),
            i <= n,
            spec_parse_from(pv, i as int, data@) == spec_parse_multipart(pv),
        decreases n - i,
    {
        let ghost acc0 = data@;
        let part = &parts[i];
        proof {
            assert(pv[i as int] == part@);
        }
        match &part.name {
            None => {
                proof {
                    assert(spec_parse_from(pv, i as int, acc0) == Err::<
                        MultipartDataView,
                        ErrorView,
                    >(spec_form_error()));
                }
                return Err(form_error());
            },
            Some(name) => {
                if *name == "text".to_owned() {
                    match utf8_decode(&part.data) {
                        Some(s) => {
                            data.text = s;
                        },
                        None => {
                            proof {
                                assert(spec_parse_from(pv, i as int, acc0) == Err::<
                                    MultipartDataView,
                                    ErrorView,
                                >(spec_form_error()));
                            }
                            return Err(form_error());
                        },
                    }
                } else if *name == "author_username".to_owned() {
                    match utf8_decode(&part.data) {
                        Some(s) => {
                            data.author_username = s;
                        },
                        None => {
                            proof {
                                assert(spec_parse_from(pv, i as int, acc0) == Err::<
                                    MultipartDataView,
                                    ErrorView,
                                >(spec_form_error()));
                            }
                            return Err(form_error());
                        },
                    }
                } else if *name == "image".to_owned() {
                    if part.data.len() == 0 {
                        data.image_base64 = None;
                    } else {
                        match validate_bytes_as_png(&part.data) {
                            Ok(()) => {
                                data.image_base64 = Some(base64_encode(&part.data));
                            },
                            Err(e) => {
                                proof {
                                    assert(spec_parse_from(pv, i as int, acc0) == Err::<
                                        MultipartDataView,
                                        ErrorView,
                                    >(spec_invalid_image_format_error()));
                                }
                                return Err(e);
                            },
                        }
                    }
                } else if *name == "avatar_url".to_owned() {
                    match utf8_decode(&part.data) {
                        Some(s) => {
                            if s.as_str().is_empty() {
                                data.avatar_url = None;
                            } else {
                                data.avatar_url = Some(s);
                            }
                        },
                        None => {
                            proof {
                                assert(spec_parse_from(pv, i as int, acc0) == Err::<
                                    MultipartDataView,
                                    ErrorView,
                                >(spec_form_error()));
                            }
                            return Err(form_error());
                        },
                    }
                }
            },
        }
        proof {
            assert(spec_apply_part(acc0, pv[i as int]) == Ok::<MultipartDataView, ErrorView>(
                data@,
            ));
            assert(spec_parse_from(pv, i as int, acc0) == spec_parse_from(
                pv,
                i as int + 1,
                data@,
            ));
        }
        i += 1;
    }
    Ok(data)
}

} // verus!
