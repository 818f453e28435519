use vstd::prelude::*;
use vstd::string::StringExecFns;

verus! {

/// Decimal digit character for a digit value below ten.
pub open spec fn digit_char(d: int) -> char {
    if d == 0 {
        '0'
    } else if d == 1 {
        '1'
    } else if d == 2 {
        '2'
    } else if d == 3 {
        '3'
    } else if d == 4 {
        '4'
    } else if d == 5 {
        '5'
    } else if d == 6 {
        '6'
    } else if d == 7 {
        '7'
    } else if d == 8 {
        '8'
    } else {
        '9'
    }
}

/// Decimal representation of a non-negative number, most significant digit
/// first, with no leading zeros.
pub open spec fn dec_seq(n: int) -> Seq<char>
    decreases n,
{
    if n < 10 {
        seq![digit_char(n)]
    } else {
        dec_seq(n / 10).push(digit_char(n % 10))
    }
}

fn digit_str(d: u8) -> (r: &'static str)
    requires
        d < 10,
    ensures
        r@ == seq![digit_char(d as int)],
{
    proof {
        reveal_strlit("0");
        reveal_strlit("1");
        reveal_strlit("2");
        reveal_strlit("3");
        reveal_strlit("4");
        reveal_strlit("5");
        reveal_strlit("6");
        reveal_strlit("7");
        reveal_strlit("8");
        reveal_strlit("9");
    }
    let r = match d {
        0 => "0",
        1 => "1",
        2 => "2",
        3 => "3",
        4 => "4",
        5 => "5",
        6 => "6",
        7 => "7",
        8 => "8",
        _ => "9",
    };
    proof {
        assert(r@ =~= seq![digit_char(d as int)]);
    }
    r
}

/// Render a byte in decimal.
pub fn u8_to_string(n: u8) -> (r: String)
    ensures
        r@ == dec_seq(n as int),
{
    let mut s = String::new();
    if n >= 100 {
        s.append(digit_str(n / 100));
    }
    if n >= 10 {
        s.append(digit_str((n / 10) % 10));
    }
    s.append(digit_str(n % 10));
    proof {
        let ni = n as int;
        if ni < 10 {
            assert(s@ =~= dec_seq(ni));
        } else if ni < 100 {
            assert(ni / 10 < 10) by (nonlinear_arith)
                requires 10 <= ni < 100;
            assert(dec_seq(ni / 10) == seq![digit_char(ni / 10)]);
            assert(s@ =~= dec_seq(ni));
        } else {
            assert(ni / 10 / 10 == ni / 100) by (nonlinear_arith)
                requires 100 <= ni < 256;
            assert(ni / 100 < 10) by (nonlinear_arith)
                requires 100 <= ni < 256;
            assert(10 <= ni / 10) by (nonlinear_arith)
                requires 100 <= ni < 256;
            assert(dec_seq(ni / 10) == dec_seq(ni / 100).push(digit_char(ni / 10 % 10)));
            assert(dec_seq(ni / 100) == seq![digit_char(ni / 100)]);
            assert(s@ =~= dec_seq(ni));
        }
    }
    s
}

/// An input device as the external control tool lists it.
pub struct Device {
    pub address: String,
    pub name: String,
}

/// Input device inventory: which touch and tablet devices are present.
/// Queried once at startup; read-only thereafter.
pub struct Devices {
    pub touch: Vec<Device>,
    pub tablets: Vec<Device>,
}

impl Devices {
    pub fn new(touch: Vec<Device>, tablets: Vec<Device>) -> (r: Devices)
        ensures
            r.touch == touch,
            r.tablets == tablets,
    {
        Devices { touch, tablets }
    }

    pub fn has_touch(&self) -> (r: bool)
        ensures
            r == (self.touch@.len() > 0),
    {
        self.touch.len() > 0
    }

    pub fn has_tablet(&self) -> (r: bool)
        ensures
            r == (self.tablets@.len() > 0),
    {
        self.tablets.len() > 0
    }
}

/// A monitor as the external control tool lists it. The `disabled` flag is
/// revalidated on every apply attempt, never cached.
#[derive(Debug, Clone)]
pub struct Monitor {
    pub id: u32,
    pub name: String,
    pub description: String,
    pub disabled: bool,
}

/// Search a monitor listing for the monitor with the given name. Returns the
/// first entry whose name matches, or `None` when no entry matches.
pub fn find_monitor<'a>(monitors: &'a Vec<Monitor>, name: &str) -> (r: Option<&'a Monitor>)
    ensures
        match r {
            Some(m) => exists|i: int|
                0 <= i < monitors@.len() && monitors@[i] == *m && monitors@[i].name@ == name@
                    && (forall|j: int| 0 <= j < i ==> monitors@[j].name@ != name@),
            None => forall|j: int| 0 <= j < monitors@.len() ==> monitors@[j].name@ != name@,
        },
{
    let n = monitors.len();
    let mut i: usize = 0;
    while i < n
        invariant
            0 <= i <= n,
            n == monitors@.len(),
            forall|j: int| 0 <= j < i ==> monitors@[j].name@ != name@,
        decreases n - i,
    {
        if crate::orientation::str_eq(monitors[i].name.as_str(), name) {
            return Some(&monitors[i]);
        }
        i += 1;
    }
    None
}

/// A device-configuration directive for the external control tool: a keyword
/// and a value, rendered as one batch entry.
pub trait Rule {
    /// The directive's keyword.
    spec fn keyword_spec(&self) -> Seq<char>;

    /// The directive's rendered value.
    spec fn value_spec(&self) -> Seq<char>;

    fn keyword(&self) -> (r: &'static str)
        ensures
            r@ == self.keyword_spec(),
    ;

    fn value(&self) -> (r: String)
        ensures
            r@ == self.value_spec(),
    ;
}

/// One batch entry: `keyword <name> <value>`.
pub open spec fn rule_line(keyword: Seq<char>, value: Seq<char>) -> Seq<char> {
    "keyword "@ + keyword + " "@ + value
}

/// An ordered batch of directives, submitted to the external control tool as
/// one atomic call.
pub struct Rules {
    rules: Vec<String>,
}

impl View for Rules {
    type V = Seq<Seq<char>>;

    closed spec fn view(&self) -> Seq<Seq<char>> {
        self.rules.deep_view()
    }
}

impl Rules {
    pub fn new() -> (r: Self)
        ensures
            r@ == Seq::<Seq<char>>::empty(),
    {
        let r = Rules { rules: Vec::new() };
        proof {
            assert(r@ =~= Seq::<Seq<char>>::empty());
        }
        r
    }

    pub fn add<R: Rule>(&mut self, rule: R)
        ensures
            final(self)@ == old(self)@.push(rule_line(rule.keyword_spec(), rule.value_spec())),
    {
        let mut line = String::from_str("keyword ");
        line.append(rule.keyword());
        line.append(" ");
        line.append(rule.value().as_str());
        self.rules.push(line);
        proof {
            assert(self@ =~= old(self)@.push(rule_line(rule.keyword_spec(), rule.value_spec())));
        }
    }

    /// The rendered batch entries, in order.
    pub fn lines(&self) -> (r: &Vec<String>)
        ensures
            r.deep_view() == self@,
    {
        &self.rules
    }

    /// The whole batch as the external tool's command line expects it: the
    /// entries joined by `;`, submitted as one invocation.
    pub fn batch_string(&self) -> (r: String)
        ensures
            r@ == join_lines(self@),
    {
        let mut s = String::new();
        let n = self.rules.len();
        let mut i: usize = 0;
        while i < n
            invariant
                0 <= i <= n,
                n == self@.len(),
                self@ == self.rules.deep_view(),
                s@ == join_lines(self@.take(i as int)),
            decreases n - i,
        {
            if i > 0 {
                s.append(";");
            }
            s.append(self.rules[i].as_str());
            proof {
                let lines = self@;
                assert(lines.take(i + 1).drop_last() =~= lines.take(i as int));
                assert(lines.take(i + 1).last() == lines[i as int]);
            }
            i += 1;
        }
        proof {
            assert(self@.take(n as int) =~= self@);
        }
        s
    }
}

/// Batch entries joined by `;`.
pub open spec fn join_lines(lines: Seq<Seq<char>>) -> Seq<char>
    decreases lines.len(),
{
    if lines.len() == 0 {
        Seq::empty()
    } else if lines.len() == 1 {
        lines[0]
    } else {
        join_lines(lines.drop_last()) + ";"@ + lines.last()
    }
}

/// Directive that rotates a monitor: `monitor <name>,transform,<value>`.
pub struct MonitorTransform<'a>(pub &'a Monitor, pub u8);

impl<'a> MonitorTransform<'a> {
    pub fn new(monitor: &'a Monitor, transform: u8) -> (r: Self)
        ensures
            r.0 == monitor,
            r.1 == transform,
    {
        MonitorTransform(monitor, transform)
    }
}

impl<'a> Rule for MonitorTransform<'a> {
    open spec fn keyword_spec(&self) -> Seq<char> {
        "monitor"@
    }

    open spec fn value_spec(&self) -> Seq<char> {
        self.0.name@ + ",transform,"@ + dec_seq(self.1 as int)
    }

    fn keyword(&self) -> (r: &'static str) {
        "monitor"
    }

    fn value(&self) -> (r: String) {
        let mut s = String::from_str(self.0.name.as_str());
        s.append(",transform,");
        s.append(u8_to_string(self.1).as_str());
        s
    }
}

/// Directive that rotates the touch input devices.
pub struct TouchDeviceTransform(pub u8);

impl TouchDeviceTransform {
    pub fn new(transform: u8) -> (r: Self)
        ensures
            r.0 == transform,
    {
        TouchDeviceTransform(transform)
    }
}

impl Rule for TouchDeviceTransform {
    open spec fn keyword_spec(&self) -> Seq<char> {
        "input:touchdevice:transform"@
    }

    open spec fn value_spec(&self) -> Seq<char> {
        dec_seq(self.0 as int)
    }

    fn keyword(&self) -> (r: &'static str) {
        "input:touchdevice:transform"
    }

    fn value(&self) -> (r: String) {
        u8_to_string(self.0)
    }
}

/// Directive that rotates the tablet input devices.
pub struct TabletTransform(pub u8);

impl TabletTransform {
    pub fn new(transform: u8) -> (r: Self)
        ensures
            r.0 == transform,
    {
        TabletTransform(transform)
    }
}

impl Rule for TabletTransform {
    open spec fn keyword_spec(&self) -> Seq<char> {
        "input:tablet:transform"@
    }

    open spec fn value_spec(&self) -> Seq<char> {
        dec_seq(self.0 as int)
    }

    fn keyword(&self) -> (r: &'static str) {
        "input:tablet:transform"
    }

    fn value(&self) -> (r: String) {
        u8_to_string(self.0)
    }
}

/// Why an orientation request failed.
#[derive(Debug, PartialEq, Eq, Structural, Clone, Copy)]
pub enum Error {
    /// The configured monitor is not in the live device list at all.
    MonitorNotFound,
    /// The external control tool reported failure for the batch.
    ApplyFailed,
}

/// The batch entry that rotates the monitor.
pub open spec fn monitor_rule_line(name: Seq<char>, t: u8) -> Seq<char> {
    rule_line("monitor"@, name + ",transform,"@ + dec_seq(t as int))
}

/// The batch entry that rotates the touch input devices.
pub open spec fn touch_rule_line(t: u8) -> Seq<char> {
    rule_line("input:touchdevice:transform"@, dec_seq(t as int))
}

/// The batch entry that rotates the tablet input devices.
pub open spec fn tablet_rule_line(t: u8) -> Seq<char> {
    rule_line("input:tablet:transform"@, dec_seq(t as int))
}

/// The full batch for one apply attempt: the monitor entry unless the monitor
/// is disabled, then a touch entry if touch devices are present, then a
/// tablet entry if tablet devices are present.
pub open spec fn batch_spec(
    disabled: bool,
    name: Seq<char>,
    t: u8,
    has_touch: bool,
    has_tablet: bool,
) -> Seq<Seq<char>> {
    (if disabled {
        Seq::<Seq<char>>::empty()
    } else {
        seq![monitor_rule_line(name, t)]
    }) + (if has_touch {
        seq![touch_rule_line(t)]
    } else {
        Seq::<Seq<char>>::empty()
    }) + (if has_tablet {
        seq![tablet_rule_line(t)]
    } else {
        Seq::<Seq<char>>::empty()
    })
}

/// Assemble the rule batch for one apply attempt against the monitor the live
/// lookup returned. A missing monitor aborts the request; a disabled monitor
/// only omits the monitor entry, so touch and tablet devices are still
/// corrected.
pub fn build_rules(
    monitor: Option<&Monitor>,
    transform: u8,
    has_touch: bool,
    has_tablet: bool,
) -> (r: Result<Rules, Error>)
    ensures
        monitor is None <==> r is Err,
        r is Err ==> r == Result::<Rules, Error>::Err(Error::MonitorNotFound),
        monitor matches Some(m) ==> r matches Ok(rules) && rules@ == batch_spec(
            m.disabled,
            m.name@,
            transform,
            has_touch,
            has_tablet,
        ),
{
    match monitor {
        None => Err(Error::MonitorNotFound),
        Some(m) => {
            let mut rules = Rules::new();
            if !m.disabled {
                rules.add(MonitorTransform::new(m, transform));
            }
            if has_touch {
                rules.add(TouchDeviceTransform::new(transform));
            }
            if has_tablet {
                rules.add(TabletTransform::new(transform));
            }
            proof {
                assert(rules@ =~= batch_spec(m.disabled, m.name@, transform, has_touch, has_tablet));
            }
            Ok(rules)
        },
    }
}

proof fn lemma_rule_lines_distinct(name: Seq<char>, t: u8)
    ensures
        monitor_rule_line(name, t) != touch_rule_line(t),
        monitor_rule_line(name, t) != tablet_rule_line(t),
        touch_rule_line(t) != tablet_rule_line(t),
{
    reveal_strlit("keyword ");
    reveal_strlit(" ");
    reveal_strlit("monitor");
    reveal_strlit("input:touchdevice:transform");
    reveal_strlit("input:tablet:transform");
    let m = monitor_rule_line(name, t);
    let to = touch_rule_line(t);
    let ta = tablet_rule_line(t);
    // The character after the "keyword " prefix tells the monitor entry from
    // the input entries; the eighth keyword character tells touch from tablet.
    assert(m[8] == 'm');
    assert(to[8] == 'i');
    assert(ta[8] == 'i');
    assert(to[15] == 'o');
    assert(ta[15] == 'a');
}

/// Capability gating and disabled-monitor tolerance: whatever the orientation
/// and transform value, the batch contains the touch entry iff touch devices
/// are present, the tablet entry iff tablet devices are present, and the
/// monitor entry iff the monitor is enabled.
pub proof fn lemma_batch_gating(
    disabled: bool,
    name: Seq<char>,
    t: u8,
    has_touch: bool,
    has_tablet: bool,
)
    ensures
        batch_spec(disabled, name, t, has_touch, has_tablet).contains(touch_rule_line(t))
            <==> has_touch,
        batch_spec(disabled, name, t, has_touch, has_tablet).contains(tablet_rule_line(t))
            <==> has_tablet,
        batch_spec(disabled, name, t, has_touch, has_tablet).contains(monitor_rule_line(name, t))
            <==> !disabled,
{
    lemma_rule_lines_distinct(name, t);
    let b = batch_spec(disabled, name, t, has_touch, has_tablet);
    if has_touch {
        let i: int = if disabled { 0 } else { 1 };
        assert(b[i] == touch_rule_line(t));
        assert(b.contains(touch_rule_line(t)));
    } else {
        assert forall|i: int| 0 <= i < b.len() implies b[i] != touch_rule_line(t) by {}
    }
    if has_tablet {
        let i: int = b.len() - 1;
        assert(b[i] == tablet_rule_line(t));
        assert(b.contains(tablet_rule_line(t)));
    } else {
        assert forall|i: int| 0 <= i < b.len() implies b[i] != tablet_rule_line(t) by {}
    }
    if !disabled {
        assert(b[0] == monitor_rule_line(name, t));
        assert(b.contains(monitor_rule_line(name, t)));
    } else {
        assert forall|i: int| 0 <= i < b.len() implies b[i] != monitor_rule_line(name, t) by {}
    }
}

} // verus!
