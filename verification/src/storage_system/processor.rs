use crate::storage_system::storage::{vue_issue, vue_lecture, Storage};
use crate::texte::joindre;
use vstd::prelude::*;

verus! {

/// Something that runs a series of operations and says whether all went well.
pub trait IProcessor {
    fn proceed(&mut self) -> Result<(), String>;
}

/// Runs a fixed series of operations on a storage.
pub struct Processor<T: Storage> {
    storage: T,
}

/// The report of an operation that gives nothing back.
pub open spec fn rapport(res: Result<(), Seq<char>>) -> Result<Seq<char>, Seq<char>> {
    match res {
        Ok(()) => Ok("Réussi"@),
        Err(e) => Err(e),
    }
}

/// The report of a `load`.
pub open spec fn rapport_valeur(res: Result<Seq<char>, Seq<char>>) -> Result<
    Seq<char>,
    Seq<char>,
> {
    match res {
        Ok(value) => Ok("==> '"@ + value + "'"@),
        Err(e) => Err(e),
    }
}

/// The texts of a report.
pub open spec fn vue_rapport(res: Result<String, String>) -> Result<Seq<char>, Seq<char>> {
    match res {
        Ok(s) => Ok(s@),
        Err(e) => Err(e@),
    }
}

/// The error of a series in which some operation failed.
pub open spec fn serie_en_echec() -> Seq<char> {
    "Tout ne s'est pas bien déroulé !"@
}

/// Every report of `results` is a success.
pub open spec fn tous_reussis(results: Seq<Result<String, String>>) -> bool {
    forall|i: int| 0 <= i < results.len() ==> (#[trigger] results[i]) is Ok
}

/// The outcome of which `report` is the report `r`.
pub open spec fn issue_rapportee(r: Result<Seq<char>, Seq<char>>) -> Result<(), Seq<char>> {
    match r {
        Ok(_) => Ok(()),
        Err(e) => Err(e),
    }
}

/// Storing `value` under `key` took the storage from `avant` to `apres`, as
/// its `save` does, and `r` is the report of what `save` answered.
pub open spec fn added<T: Storage>(
    avant: T,
    key: Seq<char>,
    value: Seq<char>,
    apres: T,
    r: Result<Seq<char>, Seq<char>>,
) -> bool {
    &&& avant.saved(key, value, &apres, issue_rapportee(r))
    &&& r == rapport(issue_rapportee(r))
}

/// `r` is the report of what `load` of `key` answered on the storage `memory`.
pub open spec fn shown<T: Storage>(
    memory: T,
    key: Seq<char>,
    r: Result<Seq<char>, Seq<char>>,
) -> bool {
    exists|res: Result<Seq<char>, Seq<char>>| #[trigger]
        memory.loaded(key, res) && r == rapport_valeur(res)
}

/// Deleting `key` took the storage from `avant` to `apres`, as its `delete`
/// does, and `r` is the report of what `delete` answered.
pub open spec fn removed<T: Storage>(
    avant: T,
    key: Seq<char>,
    apres: T,
    r: Result<Seq<char>, Seq<char>>,
) -> bool {
    &&& avant.deleted(key, &apres, issue_rapportee(r))
    &&& r == rapport(issue_rapportee(r))
}

/// The series that `proceed` runs, with the storage after each operation
/// that may change it and the reports in order: the keys 1, 2 and again 1
/// are stored, the keys 1, 2 and 3 loaded, the keys 1 and 3 deleted.
pub open spec fn serie<T: Storage>(
    s0: T,
    s1: T,
    s2: T,
    s3: T,
    s4: T,
    s5: T,
    reports: Seq<Result<Seq<char>, Seq<char>>>,
) -> bool {
    &&& reports.len() == 8
    &&& added(s0, "1"@, "1"@, s1, reports[0])
    &&& added(s1, "2"@, "2"@, s2, reports[1])
    &&& added(s2, "1"@, "2"@, s3, reports[2])
    &&& shown(s3, "1"@, reports[3])
    &&& shown(s3, "2"@, reports[4])
    &&& shown(s3, "3"@, reports[5])
    &&& removed(s3, "1"@, s4, reports[6])
    &&& removed(s4, "3"@, s5, reports[7])
}

/// The outcome of a series with the reports `reports`: a success where
/// every report is one, the error of a failed series otherwise.
pub open spec fn conclusion(reports: Seq<Result<Seq<char>, Seq<char>>>) -> Result<(), Seq<char>> {
    if forall|i: int| 0 <= i < reports.len() ==> (#[trigger] reports[i]) is Ok {
        Ok(())
    } else {
        Err(serie_en_echec())
    }
}

/// The texts of a sequence of reports, in order.
pub open spec fn vues_rapports(results: Seq<Result<String, String>>) -> Seq<
    Result<Seq<char>, Seq<char>>,
> {
    results.map_values(|r: Result<String, String>| vue_rapport(r))
}

/// The report of a `save` or `delete` whose outcome is `res`.
pub fn report(res: Result<(), String>) -> (r: Result<String, String>)
    ensures
        vue_rapport(r) == rapport(vue_issue(res)),
{
    match res {
        Err(error) => Err(error),
        Ok(()) => Ok("Réussi".to_owned()),
    }
}

/// The report of a `load` whose outcome is `res`.
pub fn report_value(res: Result<String, String>) -> (r: Result<String, String>)
    ensures
        vue_rapport(r) == rapport_valeur(vue_lecture(res)),
{
    match res {
        Err(error) => Err(error),
        Ok(value) => {
            let debut = joindre("==> '", value.as_str());
            Ok(joindre(debut.as_str(), "'"))
        },
    }
}

/// The outcome of a series of operations with the reports `results`: a
/// success where every operation succeeded, the same error otherwise.
pub fn conclude(results: &Vec<Result<String, String>>) -> (res: Result<(), String>)
    ensures
        match res {
            Ok(()) => tous_reussis(results@),
            Err(e) => !tous_reussis(results@) && e@ == serie_en_echec(),
        },
        vue_issue(res) == conclusion(vues_rapports(results@)),
{
    let mut i: usize = 0;
    while i < results.len()
        invariant
            i <= results.len(),
            forall|k: int| 0 <= k < i ==> (#[trigger] results[k]) is Ok,
        decreases results.len() - i,
    {
        if results[i].is_err() {
            assert(vues_rapports(results@)[i as int] is Err);
            return Err("Tout ne s'est pas bien déroulé !".to_owned());
        }
        i += 1;
    }
    Ok(())
}

impl<T: Storage> Processor<T> {
    /// The storage that the processor works on.
    pub closed spec fn storage(&self) -> T {
        self.storage
    }

    /// The processor of `storage`.
    pub fn new(storage: T) -> (processor: Self)
        ensures
            processor.storage() == storage,
    {
        Processor { storage }
    }

    /// Stores `value` under `key`, and reports what the storage answered.
    fn add_key(storage: &mut T, key: &str, value: &str) -> (r: Result<String, String>)
        ensures
            added(*old(storage), key@, value@, *final(storage), vue_rapport(r)),
    {
        let res = storage.save(key, value);
        report(res)
    }

    /// Loads the value under `key`, and reports what the storage answered.
    fn show_value(memory: &T, key: &str) -> (r: Result<String, String>)
        ensures
            shown(*memory, key@, vue_rapport(r)),
    {
        let res = memory.load(key);
        report_value(res)
    }

    /// Deletes what is under `key`, and reports what the storage answered.
    fn delete_value(memory: &mut T, key: &str) -> (r: Result<String, String>)
        ensures
            removed(*old(memory), key@, *final(memory), vue_rapport(r)),
    {
        let res = memory.delete(key);
        report(res)
    }
}

impl<T: Storage> IProcessor for Processor<T> {
    /// Stores under the keys 1, 2 and 1 again, loads the keys 1, 2 and 3,
    /// deletes the keys 1 and 3, whatever each of them gives, and concludes:
    /// the storage went through the series, operation by operation, as its
    /// own `save`, `load` and `delete` do, and the outcome is the conclusion
    /// of the eight reports.
    fn proceed(&mut self) -> (res: Result<(), String>)
        ensures
            exists|s1: T, s2: T, s3: T, s4: T, reports: Seq<Result<Seq<char>, Seq<char>>>|
                #[trigger] serie(
                    old(self).storage(),
                    s1,
                    s2,
                    s3,
                    s4,
                    final(self).storage(),
                    reports,
                ) && vue_issue(res) == conclusion(reports),
            res is Err ==> res->Err_0@ == serie_en_echec(),
    {
        let mut results: Vec<Result<String, String>> = Vec::new();

        results.push(Self::add_key(&mut self.storage, "1", "1"));
        let ghost s1 = self.storage;
        results.push(Self::add_key(&mut self.storage, "2", "2"));
        let ghost s2 = self.storage;
        results.push(Self::add_key(&mut self.storage, "1", "2"));
        let ghost s3 = self.storage;

        results.push(Self::show_value(&self.storage, "1"));
        results.push(Self::show_value(&self.storage, "2"));
        results.push(Self::show_value(&self.storage, "3"));

        results.push(Self::delete_value(&mut self.storage, "1"));
        let ghost s4 = self.storage;
        results.push(Self::delete_value(&mut self.storage, "3"));

        let res = conclude(&results);
        proof {
            let reports = vues_rapports(results@);
            assert(serie(old(self).storage(), s1, s2, s3, s4, self.storage(), reports));
        }
        res
    }
}

} // verus!
