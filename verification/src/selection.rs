use vstd::prelude::*;

verus! {

/// One of the three platforms the tool can query for, in the fixed order the
/// prompt offers them: windows, mac, linux.
#[derive(Clone, Copy, PartialEq, Eq, Structural, Debug)]
pub enum Platform {
    Windows,
    Mac,
    Linux,
}

impl Platform {
    /// The name of the platform exactly as it is sent in the query string.
    pub open spec fn spec_name(self) -> Seq<char> {
        match self {
            Platform::Windows => "windows"@,
            Platform::Mac => "mac"@,
            Platform::Linux => "linux"@,
        }
    }

    pub fn name(&self) -> (r: &'static str)
        ensures
            r@ == self.spec_name(),
    {
        match self {
            Platform::Windows => "windows",
            Platform::Mac => "mac",
            Platform::Linux => "linux",
        }
    }
}

/// The set of platforms picked in the multi-select prompt.
#[derive(Clone, Copy, PartialEq, Eq, Structural, Debug)]
pub struct PlatformSelection {
    pub windows: bool,
    pub mac: bool,
    pub linux: bool,
}

/// The platform selection determined by a list of prompt indices: index 0 is
/// windows, 1 is mac, 2 is linux. Only membership matters, not order.
pub open spec fn selection_of_indices(idxs: Seq<usize>) -> PlatformSelection {
    PlatformSelection {
        windows: idxs.contains(0usize),
        mac: idxs.contains(1usize),
        linux: idxs.contains(2usize),
    }
}

impl PlatformSelection {
    pub open spec fn selected(self, p: Platform) -> bool {
        match p {
            Platform::Windows => self.windows,
            Platform::Mac => self.mac,
            Platform::Linux => self.linux,
        }
    }

    /// How many platforms are selected.
    pub open spec fn spec_count(self) -> int {
        (if self.windows { 1int } else { 0 }) + (if self.mac { 1int } else { 0 })
            + (if self.linux { 1int } else { 0 })
    }

    /// Builds the selection from the indices the multi-select prompt reports.
    /// Every index must point into the three-item platform list.
    pub fn from_indices(idxs: &Vec<usize>) -> (r: PlatformSelection)
        requires
            forall|i: int| 0 <= i < idxs@.len() ==> idxs@[i] < 3,
        ensures
            r == selection_of_indices(idxs@),
    {
        let mut windows = false;
        let mut mac = false;
        let mut linux = false;
        let mut i: usize = 0;
        while i < idxs.len()
            invariant
                i <= idxs@.len(),
                forall|j: int| 0 <= j < idxs@.len() ==> idxs@[j] < 3,
                windows <==> idxs@.take(i as int).contains(0usize),
                mac <==> idxs@.take(i as int).contains(1usize),
                linux <==> idxs@.take(i as int).contains(2usize),
            decreases idxs@.len() - i,
        {
            let idx = idxs[i];
            proof {
                assert(idxs@.take(i + 1).drop_last() =~= idxs@.take(i as int));
                assert(idxs@.take(i + 1).last() == idxs@[i as int]);
            }
            if idx == 0 {
                windows = true;
            } else if idx == 1 {
                mac = true;
            } else {
                linux = true;
            }
            i = i + 1;
        }
        proof {
            assert(idxs@.take(idxs@.len() as int) =~= idxs@);
        }
        PlatformSelection { windows, mac, linux }
    }

    /// True when no platform at all was selected; the program must then stop
    /// with an error instead of building a request.
    pub fn is_empty(&self) -> (r: bool)
        ensures
            r <==> (!self.windows && !self.mac && !self.linux),
            r <==> self.spec_count() == 0,
    {
        !self.windows && !self.mac && !self.linux
    }

    /// The selected platform names, in the fixed canonical order, for the
    /// request summary.
    pub fn names(&self) -> (r: Vec<&'static str>)
        ensures
            r@.map_values(|s: &str| s@) == spec_selected_names(*self),
    {
        let mut r: Vec<&'static str> = Vec::new();
        if self.windows {
            r.push("windows");
        }
        if self.mac {
            r.push("mac");
        }
        if self.linux {
            r.push("linux");
        }
        proof {
            assert(r@.map_values(|s: &str| s@) =~= spec_selected_names(*self));
        }
        r
    }
}

/// The names of the selected platforms in the fixed order windows, mac, linux.
pub open spec fn spec_selected_names(sel: PlatformSelection) -> Seq<Seq<char>> {
    (if sel.windows {
        seq![Platform::Windows.spec_name()]
    } else {
        Seq::<Seq<char>>::empty()
    }) + (if sel.mac {
        seq![Platform::Mac.spec_name()]
    } else {
        Seq::<Seq<char>>::empty()
    }) + (if sel.linux {
        seq![Platform::Linux.spec_name()]
    } else {
        Seq::<Seq<char>>::empty()
    })
}

/// The selection depends only on which indices occur, never on the order the
/// prompt reports them in.
pub proof fn lemma_selection_order_independent(idxs1: Seq<usize>, idxs2: Seq<usize>)
    requires
        idxs1.to_set() == idxs2.to_set(),
    ensures
        selection_of_indices(idxs1) == selection_of_indices(idxs2),
{
    assert(idxs1.contains(0usize) <==> idxs1.to_set().contains(0usize));
    assert(idxs2.contains(0usize) <==> idxs2.to_set().contains(0usize));
    assert(idxs1.contains(1usize) <==> idxs1.to_set().contains(1usize));
    assert(idxs2.contains(1usize) <==> idxs2.to_set().contains(1usize));
    assert(idxs1.contains(2usize) <==> idxs1.to_set().contains(2usize));
    assert(idxs2.contains(2usize) <==> idxs2.to_set().contains(2usize));
}

/// The choice offered by the single-select config type prompt: either omitted
/// (the default) or one of the two concrete config types.
#[derive(Clone, Copy, PartialEq, Eq, Structural, Debug)]
pub enum ConfigType {
    Omitted,
    Computer,
    User,
}

impl ConfigType {
    /// The value sent for the `configType` parameter; the omitted state never
    /// reaches the query string.
    pub open spec fn spec_value(self) -> Seq<char> {
        match self {
            ConfigType::Omitted => Seq::<char>::empty(),
            ConfigType::Computer => "computer"@,
            ConfigType::User => "user"@,
        }
    }

    /// Builds the config type from the index the single-select prompt reports:
    /// 0 is the omitted default, 1 is computer, 2 is user.
    pub fn from_index(idx: usize) -> (r: ConfigType)
        requires
            idx < 3,
        ensures
            idx == 0 ==> r == ConfigType::Omitted,
            idx == 1 ==> r == ConfigType::Computer,
            idx == 2 ==> r == ConfigType::User,
    {
        if idx == 0 {
            ConfigType::Omitted
        } else if idx == 1 {
            ConfigType::Computer
        } else {
            ConfigType::User
        }
    }

    pub fn value(&self) -> (r: &'static str)
        ensures
            r@ == self.spec_value(),
    {
        proof {
            reveal_strlit("");
            assert(""@ =~= Seq::<char>::empty());
        }
        match self {
            ConfigType::Omitted => "",
            ConfigType::Computer => "computer",
            ConfigType::User => "user",
        }
    }
}

/// Everything the user chose at the prompts, consumed by the URL builder and
/// the request summary.
pub struct Selections {
    pub auth_token: String,
    pub platforms: PlatformSelection,
    pub config_type: ConfigType,
    pub search_package: String,
}

} // verus!
