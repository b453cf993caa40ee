//! Sample data for a bridged crate: values that Dart sees, values that stay opaque to it, and a
//! task that gives way once.

use crate::text::{
    all_plain, decimal, joined, quoted, signed_decimal, write_decimal, write_quoted,
    write_signed_decimal,
};
use std::rc::Rc;
use vstd::prelude::*;
use vstd::string::*;

verus! {

pub struct MyStruct {
    pub content: bool,
}

pub enum MyEnum {
    False,
    True,
}

pub type Id = u64;

pub type UserIdAlias = Id;

pub type EnumAlias = MyEnum;

pub type StructAlias = MyStruct;

/// A value that stays opaque to Dart.
/// It must be only a return type, and never an argument.
pub struct FrbOpaqueReturn;

/// A value that is returned at once and stays opaque to Dart.
/// It must be only a return type, without a wrapper such as `Option` or `Vec`.
pub struct FrbOpaqueSyncReturn;

#[derive(Debug)]
struct PrivateData {
    content: String,
    primitive: usize,
    array: [isize; 10],
    lifetime: &'static str,
}

/// The contents of hidden data.
pub struct HiddenView {
    pub content: Seq<char>,
    pub primitive: nat,
    pub array: Seq<int>,
    pub lifetime: Seq<char>,
}

/// What data hide.
pub open spec fn initial_hidden() -> HiddenView {
    HiddenView {
        content: "content nested"@,
        primitive: 424242,
        array: Seq::new(10, |i: int| 451),
        lifetime: "static str"@,
    }
}

/// The contents of data that keep a part to themselves.
pub struct HideDataView {
    /// The part that can be changed.
    pub content: Seq<char>,
    /// The part that stays hidden.
    pub hidden: Option<HiddenView>,
}

/// The contents of new data.
pub open spec fn initial_data() -> HideDataView {
    HideDataView { content: "content"@, hidden: Some(initial_hidden()) }
}

/// What is shown of hidden data.
pub open spec fn hidden_text(hidden: HiddenView) -> Seq<char> {
    "PrivateData { content: "@ + quoted(hidden.content) + ", primitive: "@ + decimal(
        hidden.primitive,
    ) + ", array: ["@ + joined(
        hidden.array.map_values(|item: int| signed_decimal(item)),
        ", "@,
    ) + "], lifetime: "@ + quoted(hidden.lifetime) + " }"@
}

/// What is shown of data that keep a part to themselves.
pub open spec fn shown(data: HideDataView) -> Seq<char> {
    data.content + " - "@ + match data.hidden {
        Some(hidden) => "Some("@ + hidden_text(hidden) + ")"@,
        None => "None"@,
    }
}

impl View for PrivateData {
    type V = HiddenView;

    closed spec fn view(&self) -> HiddenView {
        HiddenView {
            content: self.content@,
            primitive: self.primitive as nat,
            array: self.array@.map_values(|item: isize| item as int),
            lifetime: self.lifetime@,
        }
    }
}

impl PrivateData {
    spec fn items(self) -> Seq<Seq<char>> {
        self@.array.map_values(|item: int| signed_decimal(item))
    }

    fn new() -> (data: PrivateData)
        ensures
            data@ == initial_hidden(),
    {
        let data = PrivateData {
            content: "content nested".to_owned(),
            primitive: 424242,
            array: [451isize; 10],
            lifetime: "static str",
        };
        assert(data@.array =~= initial_hidden().array);
        data
    }

    fn list(&self) -> (text: String)
        ensures
            text@ == joined(self.items(), ", "@),
    {
        let mut text = String::new();
        let mut at: usize = 0;
        while at < 10
            invariant
                at <= 10,
                text@ == joined(self.items().take(at as int), ", "@),
            decreases 10 - at,
        {
            let ghost front = self.items().take(at as int);
            let ghost longer = self.items().take(at + 1);
            assert(longer.drop_last() =~= front);
            if at > 0 {
                text.append(", ");
            }
            text.append(write_signed_decimal(self.array[at] as i64).as_str());
            assert(text@ =~= joined(longer, ", "@));
            at = at + 1;
        }
        assert(self.items().take(10) =~= self.items());
        text
    }

    fn show(&self) -> (text: String)
        requires
            all_plain(self.content@),
            all_plain(self.lifetime@),
        ensures
            text@ == hidden_text(self@),
    {
        "PrivateData { content: ".to_string().concat(
            write_quoted(self.content.as_str()).as_str(),
        ).concat(", primitive: ").concat(write_decimal(self.primitive as u128).as_str()).concat(
            ", array: [",
        ).concat(self.list().as_str()).concat("], lifetime: ").concat(
            write_quoted(self.lifetime).as_str(),
        ).concat(" }")
    }
}

proof fn initial_hidden_is_plain()
    ensures
        all_plain(initial_hidden().content),
        all_plain(initial_hidden().lifetime),
{
    reveal_strlit("content nested");
    reveal_strlit("static str");
}

/// Data that cannot be sent between threads and keeps a part of it to itself.
#[derive(Debug)]
pub struct NonSendHideData {
    content: String,
    box_content: Option<Rc<PrivateData>>,
}

impl View for NonSendHideData {
    type V = HideDataView;

    closed spec fn view(&self) -> HideDataView {
        HideDataView {
            content: self.content@,
            hidden: match self.box_content {
                Some(data) => Some(data@),
                None => None,
            },
        }
    }
}

impl NonSendHideData {
    #[verifier::type_invariant]
    spec fn is_well_formed(self) -> bool {
        self@.hidden == Some(initial_hidden())
    }

    pub fn new() -> (data: Self)
        ensures
            data@ == initial_data(),
    {
        NonSendHideData {
            content: "content".to_owned(),
            box_content: Some(Rc::new(PrivateData::new())),
        }
    }

    /// Shows all of the data.
    pub fn hide_data(&self) -> (text: String)
        ensures
            text@ == shown(self@),
            self@.hidden == Some(initial_hidden()),
    {
        proof {
            use_type_invariant(self);
            initial_hidden_is_plain();
        }
        let hidden = match &self.box_content {
            Some(data) => "Some(".to_string().concat(data.show().as_str()).concat(")"),
            None => "None".to_string(),
        };
        self.content.clone().concat(" - ").concat(hidden.as_str())
    }

    /// Changes what can be changed.
    pub fn change_data(&mut self)
        ensures
            final(self)@ == (HideDataView { content: "MUT SELF"@, ..old(self)@ }),
    {
        proof {
            use_type_invariant(&*self);
        }
        self.content = "MUT SELF".to_owned();
    }
}

/// Data that keeps a part of it to itself.
#[derive(Debug)]
pub struct HideData {
    content: String,
    box_content: Option<Box<PrivateData>>,
}

impl View for HideData {
    type V = HideDataView;

    closed spec fn view(&self) -> HideDataView {
        HideDataView {
            content: self.content@,
            hidden: match self.box_content {
                Some(data) => Some(data@),
                None => None,
            },
        }
    }
}

impl HideData {
    #[verifier::type_invariant]
    spec fn is_well_formed(self) -> bool {
        self@.hidden == Some(initial_hidden())
    }

    pub fn new() -> (data: Self)
        ensures
            data@ == initial_data(),
    {
        HideData {
            content: "content".to_owned(),
            box_content: Some(Box::new(PrivateData::new())),
        }
    }

    /// Shows all of the data.
    pub fn hide_data(&self) -> (text: String)
        ensures
            text@ == shown(self@),
            self@.hidden == Some(initial_hidden()),
    {
        proof {
            use_type_invariant(self);
            initial_hidden_is_plain();
        }
        let hidden = match &self.box_content {
            Some(data) => "Some(".to_string().concat(data.show().as_str()).concat(")"),
            None => "None".to_string(),
        };
        self.content.clone().concat(" - ").concat(hidden.as_str())
    }

    /// Changes what can be changed.
    pub fn change_data(&mut self)
        ensures
            final(self)@ == (HideDataView { content: "MUT SELF"@, ..old(self)@ }),
    {
        proof {
            use_type_invariant(&*self);
        }
        self.content = "MUT SELF".to_owned();
    }
}

/// New data are alike in every field, whether or not they can be sent, and show the same.
pub proof fn new_data_are_alike(one: NonSendHideData, other: NonSendHideData, sendable: HideData)
    requires
        one@ == initial_data(),
        other@ == initial_data(),
        sendable@ == initial_data(),
    ensures
        one@ == other@,
        one@ == sendable@,
        shown(one@) == shown(sendable@),
{
}

/// A change leaves the hidden part as it is, and a second change makes no difference.
pub proof fn change_keeps_the_hidden_part(
    before: HideDataView,
    after: HideDataView,
    again: HideDataView,
)
    requires
        after == (HideDataView { content: "MUT SELF"@, ..before }),
        again == (HideDataView { content: "MUT SELF"@, ..after }),
    ensures
        after.hidden == before.hidden,
        again == after,
{
}

/// What a task that gives way says when it is polled.
pub enum YieldStep {
    /// It is through.
    Ready,
    /// It gives way: it is to be woken, and polled again later.
    WakeAndWait,
}

/// A task that gives way once.
pub struct YieldNow {
    yielded: bool,
}

impl YieldNow {
    /// The task has given way.
    pub closed spec fn has_yielded(self) -> bool {
        self.yielded
    }

    /// Polls the task: the first time it gives way, and after that it is through.
    pub fn poll(&mut self) -> (step: YieldStep)
        ensures
            final(self).has_yielded(),
            step == if old(self).has_yielded() {
                YieldStep::Ready
            } else {
                YieldStep::WakeAndWait
            },
    {
        if self.yielded {
            return YieldStep::Ready;
        }
        self.yielded = true;
        YieldStep::WakeAndWait
    }
}

/// A task that gives way once.
pub fn yield_now() -> (task: YieldNow)
    ensures
        !task.has_yielded(),
{
    YieldNow { yielded: false }
}

} // verus!
