use vstd::prelude::*;
use crate::errors::FlowError;

verus! {

/// The store of one flow run: named variables plus the last produced
/// value. Created fresh at the start of every run, owned by that run,
/// and discarded when the run ends.
pub struct State {
    vars: Vec<(String, String)>,
    last_output: Option<String>,
}

/// The bindings as a map; a later binding shadows an earlier one.
pub open spec fn map_of(entries: Seq<(String, String)>) -> Map<Seq<char>, Seq<char>>
    decreases entries.len(),
{
    if entries.len() == 0 {
        Map::empty()
    } else {
        map_of(entries.drop_last()).insert(entries.last().0@, entries.last().1@)
    }
}

impl State {
    /// The variable store, as a map from names to values.
    pub closed spec fn vars_map(self) -> Map<Seq<char>, Seq<char>> {
        map_of(self.vars@)
    }

    /// The most recently produced value, if any step produced one yet.
    pub closed spec fn last(self) -> Option<Seq<char>> {
        match self.last_output {
            Some(s) => Some(s@),
            None => None,
        }
    }

    pub fn new() -> (s: State)
        ensures
            s.vars_map() == Map::<Seq<char>, Seq<char>>::empty(),
            s.last() is None,
    {
        State { vars: Vec::new(), last_output: None }
    }

    /// Saves a value as the last output and, when a name is given, as a
    /// variable under that name too.
    pub fn set_output(&mut self, s: String, output_var: &Option<String>)
        ensures
            final(self).last() == Some(s@),
            (match *output_var {
                Some(n) => final(self).vars_map() == old(self).vars_map().insert(n@, s@),
                None => final(self).vars_map() == old(self).vars_map(),
            }),
    {
        if let Some(var_name) = output_var {
            let ghost pre = self.vars@;
            self.vars.push((var_name.clone(), s.clone()));
            proof {
                assert(self.vars@.drop_last() =~= pre);
            }
        }
        self.last_output = Some(s);
    }

    /// Retrieves the variable of the given name, or the last output when
    /// no name is given. A missing name, or an absent last output, is a
    /// fatal usage error.
    pub fn get_input(&self, input_var: &Option<String>) -> (r: Result<&String, FlowError>)
        ensures
            (match *input_var {
                Some(n) => match r {
                    Ok(v) => self.vars_map().contains_key(n@) && v@ == self.vars_map()[n@],
                    Err(e) => !self.vars_map().contains_key(n@) && e == FlowError::MissingInput,
                },
                None => match r {
                    Ok(v) => self.last() == Some(v@),
                    Err(e) => self.last() is None && e == FlowError::MissingInput,
                },
            }),
    {
        match input_var {
            Some(name) => {
                proof {
                    assert(self.vars@.take(self.vars@.len() as int) =~= self.vars@);
                }
                let mut i = self.vars.len();
                while i > 0
                    invariant
                        *input_var == Some(*name),
                        i <= self.vars.len(),
                        map_of(self.vars@).contains_key(name@) == map_of(
                            self.vars@.take(i as int),
                        ).contains_key(name@),
                        map_of(self.vars@).contains_key(name@) ==> map_of(self.vars@)[name@]
                            == map_of(self.vars@.take(i as int))[name@],
                    decreases i,
                {
                    i = i - 1;
                    proof {
                        assert(self.vars@.take(i + 1).drop_last() =~= self.vars@.take(i as int));
                        assert(self.vars@.take(i + 1).last() == self.vars@[i as int]);
                    }
                    if self.vars[i].0 == *name {
                        proof {
                            assert(map_of(self.vars@.take(i + 1))[name@] == self.vars@[
                                i as int
                            ].1@);
                        }
                        return Ok(&self.vars[i].1);
                    }
                }
                proof {
                    assert(self.vars@.take(0) =~= Seq::<(String, String)>::empty());
                }
                Err(FlowError::MissingInput)
            },
            None => match &self.last_output {
                Some(v) => Ok(v),
                None => Err(FlowError::MissingInput),
            },
        }
    }
}

} // verus!
