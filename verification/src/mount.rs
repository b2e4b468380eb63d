//! The mount table: which block device is mounted where, and as what.
//!
//! The table is read from text in the layout of `/etc/mtab`: one mount per
//! line, columns separated by whitespace, in the order device, mount point,
//! file system type, then options and two numbers that are not looked at.

use vstd::prelude::*;
use vstd::hash_map::StringHashMap;
use vstd::string::StrSliceExecFns;
use vstd::string::StringExecFns;
use crate::defs::MTAB_PATH;
use crate::effect::{texts, Reply, ReplyView, Request, RequestView};
use crate::error::{ProbeError, ProbeErrorView};
use crate::text::{chars_of, line_spans, lines, spans_cut, starts_with, word_spans, words};
use crate::text::{char_is_whitespace, lemma_solid_runs_bounds, solid_runs, whitespace_mask};

verus! {

broadcast use vstd::seq::group_seq_axioms;

/// Where a block device is mounted, and with which file system.
#[derive(Clone, Debug)]
pub struct Mount {
    mountpoint: String,
    fs_type: String,
}

/// A [`Mount`] as plain text.
pub struct MountView {
    pub mountpoint: Seq<char>,
    pub fs_type: Seq<char>,
}

impl View for Mount {
    type V = MountView;

    closed spec fn view(&self) -> MountView {
        MountView { mountpoint: self.mountpoint@, fs_type: self.fs_type@ }
    }
}

impl Mount {
    /// The directory on which the device is mounted.
    pub fn get_mountpoint(&self) -> (path: &str)
        ensures
            path@ == self@.mountpoint,
    {
        self.mountpoint.as_str()
    }

    /// The type of the file system on the device.
    pub fn get_fs_type(&self) -> (name: &str)
        ensures
            name@ == self@.fs_type,
    {
        self.fs_type.as_str()
    }
}

/// The mounts of the block devices, keyed by the device's path.
pub struct MountTab {
    by_device: StringHashMap<Mount>,
    devices: Vec<String>,
}

/// Whether `devices` names each element of `keys`, and each once.
pub open spec fn lists_each_once(devices: Seq<Seq<char>>, keys: Set<Seq<char>>) -> bool {
    &&& devices.no_duplicates()
    &&& forall|i: int| 0 <= i < devices.len() ==> keys.contains(#[trigger] devices[i])
    &&& forall|k: Seq<char>| keys.contains(k) ==> devices.contains(k)
}

impl View for MountTab {
    type V = Map<Seq<char>, MountView>;

    /// The record of each device. The order in which the devices were first
    /// named is not part of it: see [`MountTab::device_list`].
    closed spec fn view(&self) -> Map<Seq<char>, MountView> {
        records_of(self.by_device@)
    }
}

impl MountTab {
    #[verifier::type_invariant]
    spec fn devices_are_listed(self) -> bool {
        lists_each_once(texts(self.devices@), self.by_device@.dom())
    }

    /// The devices of the table, in the order in which they were first
    /// named.
    pub closed spec fn device_list(&self) -> Seq<Seq<char>> {
        texts(self.devices@)
    }

    /// The mount of `device`, if the table has one.
    pub fn get(&self, device: &str) -> (mount: Option<&Mount>)
        ensures
            match mount {
                Some(m) => self@.contains_key(device@) && m@ == self@[device@],
                None => !self@.contains_key(device@),
            },
    {
        self.by_device.get(device)
    }

    /// Whether the table has a mount of `device`.
    pub fn contains_key(&self, device: &str) -> (found: bool)
        ensures
            found == self@.contains_key(device@),
    {
        self.by_device.contains_key(device)
    }

    /// The devices of the table, in the order in which they were first
    /// named: each device of the table, and each once.
    pub fn devices(&self) -> (devices: &Vec<String>)
        ensures
            texts(devices@) == self.device_list(),
            lists_each_once(self.device_list(), self@.dom()),
    {
        proof {
            use_type_invariant(self);
            assert(self@.dom() == self.by_device@.dom());
        }
        &self.devices
    }

    /// How many devices the table has.
    pub fn len(&self) -> (n: usize)
        ensures
            n == self@.len(),
            n == self.device_list().len(),
    {
        proof {
            use_type_invariant(self);
            let listed = self.device_list();
            assert(self@.dom() == self.by_device@.dom());
            listed.unique_seq_to_set();
            assert(listed.to_set() == self@.dom());
        }
        self.devices.len()
    }

    /// Whether the table has no device at all.
    pub fn is_empty(&self) -> (empty: bool)
        ensures
            empty == (self@.len() == 0),
    {
        self.len() == 0
    }
}

/// What a device's path begins with: `/dev/`.
pub open spec fn dev_prefix() -> Seq<char> {
    seq!['/', 'd', 'e', 'v', '/']
}

/// Whether `name` is the path of a block device.
pub open spec fn is_block_device(name: Seq<char>) -> bool {
    dev_prefix().is_prefix_of(name)
}

/// Whether `line` has the three columns that a mount needs.
pub open spec fn well_formed(line: Seq<char>) -> bool {
    words(line).len() >= 3
}

/// The first column of a well-formed line.
pub open spec fn device_of(line: Seq<char>) -> Seq<char> {
    words(line)[0]
}

/// The second and third column of a well-formed line.
pub open spec fn record_of(line: Seq<char>) -> MountView {
    MountView { mountpoint: words(line)[1], fs_type: words(line)[2] }
}

/// Whether `line` describes the mount of a block device.
pub open spec fn is_device_line(line: Seq<char>) -> bool {
    well_formed(line) && is_block_device(device_of(line))
}

/// The table that the lines `ls` describe, read from first to last: each
/// line of a block device sets that device's record, other lines change
/// nothing.
pub open spec fn table_of(ls: Seq<Seq<char>>) -> Map<Seq<char>, MountView>
    decreases ls.len(),
{
    if ls.len() == 0 {
        Map::empty()
    } else {
        let before = table_of(ls.drop_last());
        if is_device_line(ls.last()) {
            before.insert(device_of(ls.last()), record_of(ls.last()))
        } else {
            before
        }
    }
}

/// Whether line `i` is the first of `ls` with fewer than three columns.
pub open spec fn first_malformed(ls: Seq<Seq<char>>, i: int) -> bool {
    &&& 0 <= i < ls.len()
    &&& !well_formed(ls[i])
    &&& forall|j: int| 0 <= j < i ==> well_formed(#[trigger] ls[j])
}

/// The devices that the lines `ls` mount, in the order in which they are
/// first named.
pub open spec fn devices_of(ls: Seq<Seq<char>>) -> Seq<Seq<char>>
    decreases ls.len(),
{
    if ls.len() == 0 {
        Seq::empty()
    } else {
        let before = devices_of(ls.drop_last());
        if is_device_line(ls.last()) && !table_of(ls.drop_last()).contains_key(
            device_of(ls.last()),
        ) {
            before.push(device_of(ls.last()))
        } else {
            before
        }
    }
}

/// The records of `mounts` as plain text.
pub open spec fn records_of(mounts: Map<Seq<char>, Mount>) -> Map<Seq<char>, MountView> {
    mounts.map_values(|m: Mount| m@)
}

/// What reading the table from `text` gives: the table of its lines, or the
/// first line that is too short, with its number and text.
pub open spec fn parsed(text: Seq<char>) -> Result<Map<Seq<char>, MountView>, ProbeErrorView> {
    let ls = lines(text);
    if exists|i: int| first_malformed(ls, i) {
        let i = choose|i: int| first_malformed(ls, i);
        Err(ProbeErrorView::InvalidFormat { line_no: i, text: ls[i] })
    } else {
        Ok(table_of(ls))
    }
}

/// What the answer to [`mtab_query`] gives: the table in the file, or the
/// failure to read the file.
pub open spec fn mtab_outcome(reply: ReplyView) -> Result<
    Map<Seq<char>, MountView>,
    ProbeErrorView,
> {
    match reply {
        ReplyView::Read(Ok(text)) => parsed(text),
        ReplyView::Read(Err(why)) => Err(
            ProbeErrorView::IoError { path: MTAB_PATH@, message: why },
        ),
        _ => Err(ProbeErrorView::UnexpectedReply),
    }
}

/// The request for the content of the mount table.
pub open spec fn mtab_query() -> RequestView {
    RequestView::ReadFile { path: MTAB_PATH@ }
}

/// `r` as plain text.
pub open spec fn table_outcome(r: Result<MountTab, ProbeError>) -> Result<
    Map<Seq<char>, MountView>,
    ProbeErrorView,
> {
    match r {
        Ok(tab) => Ok(tab@),
        Err(e) => Err(e@),
    }
}

/// At most one line is the first malformed one.
pub proof fn lemma_first_malformed_is_unique(ls: Seq<Seq<char>>, i: int, j: int)
    requires
        first_malformed(ls, i),
        first_malformed(ls, j),
    ensures
        i == j,
{
    if i < j {
        assert(well_formed(ls[i]));
    }
    if j < i {
        assert(well_formed(ls[j]));
    }
}

impl Mount {
    /// The request that [`Mount::from_mtab`] wants answered.
    pub fn mtab_request() -> (request: Request)
        ensures
            request@ == mtab_query(),
    {
        Request::ReadFile { path: String::from_str(MTAB_PATH) }
    }

    /// The mount table, from the reply to [`Mount::mtab_request`].
    pub fn from_mtab(reply: Reply) -> (res: Result<MountTab, ProbeError>)
        ensures
            table_outcome(res) == mtab_outcome(reply@),
            res matches Ok(tab) ==> reply matches Reply::Read(Ok(text)) && tab.device_list()
                == devices_of(lines(text@)),
    {
        match reply {
            Reply::Read(Ok(text)) => Mount::parse_mtab(text.as_str()),
            Reply::Read(Err(why)) => Err(
                ProbeError::IoError { path: String::from_str(MTAB_PATH), message: why },
            ),
            _ => Err(ProbeError::UnexpectedReply),
        }
    }

    /// Reads the mount table from `mtab_str`, the content of `/etc/mtab`.
    ///
    /// Every line must have at least three columns; the first line that has
    /// not makes the whole reading fail, with that line's number (from 0) and
    /// text. Of the other lines, those whose device begins with `/dev/` end
    /// up in the table, a later line replacing an earlier one for the same
    /// device.
    pub fn parse_mtab(mtab_str: &str) -> (res: Result<MountTab, ProbeError>)
        ensures
            table_outcome(res) == parsed(mtab_str@),
            res is Ok <==> forall|i: int|
                0 <= i < lines(mtab_str@).len() ==> well_formed(#[trigger] lines(mtab_str@)[i]),
            res matches Ok(tab) ==> tab@ == table_of(lines(mtab_str@)) && tab.device_list()
                == devices_of(lines(mtab_str@)),
            res matches Err(e) ==> e matches ProbeError::InvalidFormat { line_no, text }
                && first_malformed(lines(mtab_str@), line_no as int) && text@ == lines(
                mtab_str@,
            )[line_no as int],
    {
        let cs = chars_of(mtab_str);
        let dev = chars_of("/dev/");
        proof {
            reveal_strlit("/dev/");
        }
        let spans = line_spans(&cs);
        let ghost ls = lines(mtab_str@);
        let mut mounts: StringHashMap<Mount> = StringHashMap::new();
        let mut devices: Vec<String> = Vec::new();
        let mut line_no: usize = 0;
        while line_no < spans.len()
            invariant
                cs@ == mtab_str@,
                ls == lines(mtab_str@),
                dev@ == dev_prefix(),
                spans_cut(cs@, spans@, ls),
                line_no <= spans.len(),
                forall|j: int| 0 <= j < line_no ==> well_formed(#[trigger] ls[j]),
                records_of(mounts@) == table_of(ls.take(line_no as int)),
                texts(devices@) == devices_of(ls.take(line_no as int)),
            decreases spans.len() - line_no,
        {
            let (start, end) = spans[line_no];
            let columns = word_spans(&cs, start, end);
            if columns.len() < 3 {
                let text = String::from_str(mtab_str.substring_char(start, end));
                proof {
                    assert(first_malformed(ls, line_no as int));
                    let i = choose|i: int| first_malformed(ls, i);
                    lemma_first_malformed_is_unique(ls, i, line_no as int);
                }
                return Err(ProbeError::InvalidFormat { line_no, text });
            }
            assert(ls.take(line_no + 1).drop_last() == ls.take(line_no as int));
            let (d0, d1) = columns[0];
            if starts_with(&cs, d0, d1, &dev) {
                let (m0, m1) = columns[1];
                let (t0, t1) = columns[2];
                let device = String::from_str(mtab_str.substring_char(d0, d1));
                let mount = Mount {
                    mountpoint: String::from_str(mtab_str.substring_char(m0, m1)),
                    fs_type: String::from_str(mtab_str.substring_char(t0, t1)),
                };
                assert(records_of(mounts@).dom() == mounts@.dom());
                if !mounts.contains_key(device.as_str()) {
                    devices.push(device.clone());
                }
                mounts.insert(device, mount);
            }
            line_no = line_no + 1;
        }
        proof {
            assert(ls.take(line_no as int) == ls);
            assert(records_of(mounts@).dom() == mounts@.dom());
            lemma_devices_list_the_table(ls);
        }
        Ok(MountTab { by_device: mounts, devices })
    }
}

/// The table has a device exactly if a line of that block device is among
/// `ls`.
pub proof fn lemma_table_keys(ls: Seq<Seq<char>>, device: Seq<char>)
    ensures
        table_of(ls).contains_key(device) <==> exists|i: int|
            0 <= i < ls.len() && is_device_line(#[trigger] ls[i]) && device_of(ls[i]) == device,
        table_of(ls).contains_key(device) ==> is_block_device(device),
        table_of(ls).dom().finite(),
    decreases ls.len(),
{
    if ls.len() > 0 {
        let init = ls.drop_last();
        lemma_table_keys(init, device);
        if table_of(ls).contains_key(device) {
            if is_device_line(ls.last()) && device_of(ls.last()) == device {
                assert(is_device_line(ls[ls.len() - 1]) && device_of(ls[ls.len() - 1]) == device);
            } else {
                let i = choose|i: int|
                    0 <= i < init.len() && is_device_line(#[trigger] init[i]) && device_of(init[i])
                        == device;
                assert(is_device_line(ls[i]) && device_of(ls[i]) == device);
            }
        }
        if exists|i: int|
            0 <= i < ls.len() && is_device_line(#[trigger] ls[i]) && device_of(ls[i]) == device {
            let i = choose|i: int|
                0 <= i < ls.len() && is_device_line(#[trigger] ls[i]) && device_of(ls[i]) == device;
            if i < ls.len() - 1 {
                assert(is_device_line(init[i]) && device_of(init[i]) == device);
            }
        }
    }
}

/// The devices in the order of their first naming are the devices of the
/// table, each once.
pub proof fn lemma_devices_list_the_table(ls: Seq<Seq<char>>)
    ensures
        lists_each_once(devices_of(ls), table_of(ls).dom()),
        devices_of(ls).len() == table_of(ls).dom().len(),
    decreases ls.len(),
{
    if ls.len() > 0 {
        let init = ls.drop_last();
        let before = devices_of(init);
        let device = device_of(ls.last());
        lemma_devices_list_the_table(init);
        if is_device_line(ls.last()) && !table_of(init).contains_key(device) {
            assert forall|k: Seq<char>| table_of(ls).dom().contains(k) implies devices_of(
                ls,
            ).contains(k) by {
                if k == device {
                    assert(devices_of(ls)[before.len() as int] == k);
                } else {
                    let i = choose|i: int| 0 <= i < before.len() && before[i] == k;
                    assert(devices_of(ls)[i] == k);
                }
            }
        } else {
            assert(table_of(ls).dom() == table_of(init).dom());
        }
    }
    devices_of(ls).unique_seq_to_set();
    assert(devices_of(ls).to_set() == table_of(ls).dom());
}

/// Where line `i` of `ls` mounts a block device and no later line names that
/// device again, the table holds what line `i` says.
pub proof fn lemma_table_holds_last_line(ls: Seq<Seq<char>>, i: int)
    requires
        0 <= i < ls.len(),
        is_device_line(ls[i]),
        forall|j: int|
            i < j < ls.len() && is_device_line(#[trigger] ls[j]) ==> device_of(ls[j]) != device_of(
                ls[i],
            ),
    ensures
        table_of(ls).contains_key(device_of(ls[i])),
        table_of(ls)[device_of(ls[i])] == record_of(ls[i]),
    decreases ls.len(),
{
    let init = ls.drop_last();
    if i < ls.len() - 1 {
        assert(init[i] == ls[i]);
        assert forall|j: int|
            i < j < init.len() && is_device_line(#[trigger] init[j]) implies device_of(init[j])
            != device_of(init[i]) by {
            assert(init[j] == ls[j]);
        }
        lemma_table_holds_last_line(init, i);
        let last = ls[ls.len() - 1];
        assert(is_device_line(last) ==> device_of(last) != device_of(ls[i]));
    }
}

/// Among lines of which one is malformed, one is the first malformed.
pub proof fn lemma_some_line_is_first_malformed(ls: Seq<Seq<char>>, i: int) -> (first: int)
    requires
        0 <= i < ls.len(),
        !well_formed(ls[i]),
    ensures
        0 <= first <= i,
        first_malformed(ls, first),
    decreases i,
{
    if forall|j: int| 0 <= j < i ==> well_formed(#[trigger] ls[j]) {
        i
    } else {
        let j = choose|j: int| 0 <= j < i && !well_formed(#[trigger] ls[j]);
        lemma_some_line_is_first_malformed(ls, j)
    }
}

/// Each word is non-empty and free of whitespace.
pub proof fn lemma_words_are_solid(t: Seq<char>, k: int)
    requires
        0 <= k < words(t).len(),
    ensures
        words(t)[k].len() > 0,
        forall|i: int|
            0 <= i < words(t)[k].len() ==> !char_is_whitespace(#[trigger] words(t)[k][i]),
{
    let mask = whitespace_mask(t);
    let run = solid_runs(mask, 0)[k];
    lemma_solid_runs_bounds(mask, 0, k);
    assert forall|i: int| 0 <= i < words(t)[k].len() implies !char_is_whitespace(
        #[trigger] words(t)[k][i],
    ) by {
        assert(!mask[run.0 + i]);
    }
}

/// A table of well-formed lines is read without failure, and has one entry
/// for each distinct `/dev/` device that stands in the first column of a
/// line, and no other entry: a line of anything else never shows in it. The
/// list of its devices names each of them once, so there are as many entries
/// as distinct devices.
pub proof fn lemma_one_entry_per_block_device(text: Seq<char>, device: Seq<char>)
    requires
        forall|i: int| 0 <= i < lines(text).len() ==> well_formed(#[trigger] lines(text)[i]),
    ensures
        parsed(text) == Ok::<Map<Seq<char>, MountView>, ProbeErrorView>(table_of(lines(text))),
        table_of(lines(text)).dom().finite(),
        table_of(lines(text)).contains_key(device) <==> is_block_device(device) && exists|i: int|
            0 <= i < lines(text).len() && device_of(#[trigger] lines(text)[i]) == device,
        lists_each_once(devices_of(lines(text)), table_of(lines(text)).dom()),
        devices_of(lines(text)).len() == table_of(lines(text)).len(),
{
    let ls = lines(text);
    lemma_table_keys(ls, device);
    lemma_devices_list_the_table(ls);
    if table_of(ls).contains_key(device) {
        let i = choose|i: int|
            0 <= i < ls.len() && is_device_line(#[trigger] ls[i]) && device_of(ls[i]) == device;
        assert(device_of(ls[i]) == device);
    }
    if is_block_device(device) && exists|i: int|
        0 <= i < ls.len() && device_of(#[trigger] ls[i]) == device {
        let i = choose|i: int| 0 <= i < ls.len() && device_of(#[trigger] ls[i]) == device;
        assert(is_device_line(ls[i]));
    }
}

/// The last line that names a device decides its record: where line `i`
/// mounts a block device and no later line names that device again, the
/// table holds what line `i` says, whatever earlier lines said of the device.
pub proof fn lemma_later_line_replaces_earlier(text: Seq<char>, i: int)
    requires
        forall|k: int| 0 <= k < lines(text).len() ==> well_formed(#[trigger] lines(text)[k]),
        0 <= i < lines(text).len(),
        is_block_device(device_of(lines(text)[i])),
        forall|j: int|
            i < j < lines(text).len() ==> device_of(#[trigger] lines(text)[j]) != device_of(
                lines(text)[i],
            ),
    ensures
        parsed(text) == Ok::<Map<Seq<char>, MountView>, ProbeErrorView>(table_of(lines(text))),
        table_of(lines(text)).contains_key(device_of(lines(text)[i])),
        table_of(lines(text))[device_of(lines(text)[i])] == record_of(lines(text)[i]),
{
    lemma_table_holds_last_line(lines(text), i);
}

/// A line with two words or fewer makes the whole reading fail with a format
/// error, whatever the other lines hold; the error names the first such
/// line, by its number from 0 and its text.
pub proof fn lemma_short_line_fails(text: Seq<char>, i: int)
    requires
        0 <= i < lines(text).len(),
        words(lines(text)[i]).len() <= 2,
    ensures
        parsed(text) matches Err(ProbeErrorView::InvalidFormat { line_no, text: line })
            && first_malformed(lines(text), line_no) && line_no <= i && line == lines(
            text,
        )[line_no],
        first_malformed(lines(text), i) ==> parsed(text) == Err::<
            Map<Seq<char>, MountView>,
            ProbeErrorView,
        >(ProbeErrorView::InvalidFormat { line_no: i, text: lines(text)[i] }),
{
    let ls = lines(text);
    let first = lemma_some_line_is_first_malformed(ls, i);
    let chosen = choose|k: int| first_malformed(ls, k);
    lemma_first_malformed_is_unique(ls, chosen, first);
    if first_malformed(ls, i) {
        lemma_first_malformed_is_unique(ls, chosen, i);
    }
}

/// No entry of the table is empty: the device, the mount point and the file
/// system type each hold at least one character.
pub proof fn lemma_records_are_filled(ls: Seq<Seq<char>>, device: Seq<char>)
    requires
        table_of(ls).contains_key(device),
    ensures
        device.len() > 0,
        table_of(ls)[device].mountpoint.len() > 0,
        table_of(ls)[device].fs_type.len() > 0,
    decreases ls.len(),
{
    if ls.len() > 0 {
        let line = ls.last();
        if is_device_line(line) && device_of(line) == device {
            lemma_words_are_solid(line, 0);
            lemma_words_are_solid(line, 1);
            lemma_words_are_solid(line, 2);
        } else {
            lemma_records_are_filled(ls.drop_last(), device);
        }
    }
}

} // verus!
