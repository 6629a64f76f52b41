use crate::texte::joindre;
use vstd::hash_map::StringHashMap;
use vstd::prelude::*;

verus! {

/// The outcome of a `save` or a `delete`, with the text of its error.
pub open spec fn vue_issue(res: Result<(), String>) -> Result<(), Seq<char>> {
    match res {
        Ok(()) => Ok(()),
        Err(e) => Err(e@),
    }
}

/// The outcome of a `load`, with the text of its value or of its error.
pub open spec fn vue_lecture(res: Result<String, String>) -> Result<Seq<char>, Seq<char>> {
    match res {
        Ok(value) => Ok(value@),
        Err(e) => Err(e@),
    }
}

/// A storage of texts under keys. An implementation decides what each
/// operation does and when it succeeds, and says so in `saved`, `loaded` and
/// `deleted`; one that says nothing promises nothing. The trait itself
/// promises nothing of the outcome.
pub trait Storage {
    /// `save` of `value` under `key` may take this storage to `apres` and
    /// answer `res`.
    open spec fn saved(
        &self,
        key: Seq<char>,
        value: Seq<char>,
        apres: &Self,
        res: Result<(), Seq<char>>,
    ) -> bool {
        true
    }

    /// `load` of `key` may answer `res` on this storage.
    open spec fn loaded(&self, key: Seq<char>, res: Result<Seq<char>, Seq<char>>) -> bool {
        true
    }

    /// `delete` of `key` may take this storage to `apres` and answer `res`.
    open spec fn deleted(&self, key: Seq<char>, apres: &Self, res: Result<(), Seq<char>>) -> bool {
        true
    }

    /// Stores `value` under `key`.
    fn save(&mut self, key: &str, value: &str) -> (res: Result<(), String>)
        ensures
            old(self).saved(key@, value@, final(self), vue_issue(res)),
    ;

    /// The value stored under `key`.
    fn load(&self, key: &str) -> (res: Result<String, String>)
        ensures
            self.loaded(key@, vue_lecture(res)),
    ;

    /// Removes what is stored under `key`.
    fn delete(&mut self, key: &str) -> (res: Result<(), String>)
        ensures
            old(self).deleted(key@, final(self), vue_issue(res)),
    ;
}

/// A storage in memory. A key is stored once: to store under it again, it
/// has to be deleted first.
pub struct MemoryStorage {
    map: StringHashMap<String>,
}

/// The error of `MemoryStorage::save` for a key that is taken.
pub open spec fn cle_existante(key: Seq<char>) -> Seq<char> {
    "Clé '"@ + key + "' existe déjà"@
}

/// The error of `MemoryStorage` for a key under which nothing is stored.
pub open spec fn cle_absente(key: Seq<char>) -> Seq<char> {
    "Clef '"@ + key + "' non trouvée !"@
}

impl MemoryStorage {
    /// What is stored: the text under each key.
    pub closed spec fn contenu(&self) -> Map<Seq<char>, Seq<char>> {
        self.map@.map_values(|v: String| v@)
    }

    /// The empty storage.
    pub fn new() -> (storage: Self)
        ensures
            storage.contenu() == Map::<Seq<char>, Seq<char>>::empty(),
    {
        MemoryStorage { map: StringHashMap::new() }
    }
}

impl Storage for MemoryStorage {
    /// A key that is taken is refused, and nothing changes; under a free
    /// key the value is stored.
    open spec fn saved(
        &self,
        key: Seq<char>,
        value: Seq<char>,
        apres: &Self,
        res: Result<(), Seq<char>>,
    ) -> bool {
        if self.contenu().contains_key(key) {
            res == Err::<(), Seq<char>>(cle_existante(key)) && apres.contenu() == self.contenu()
        } else {
            res == Ok::<(), Seq<char>>(()) && apres.contenu() == self.contenu().insert(key, value)
        }
    }

    /// The answer is the text stored under the key, or the error of a key
    /// under which nothing is stored.
    open spec fn loaded(&self, key: Seq<char>, res: Result<Seq<char>, Seq<char>>) -> bool {
        if self.contenu().contains_key(key) {
            res == Ok::<Seq<char>, Seq<char>>(self.contenu()[key])
        } else {
            res == Err::<Seq<char>, Seq<char>>(cle_absente(key))
        }
    }

    /// What is stored under the key is removed; where nothing is, the
    /// deletion fails and nothing changes.
    open spec fn deleted(&self, key: Seq<char>, apres: &Self, res: Result<(), Seq<char>>) -> bool {
        if self.contenu().contains_key(key) {
            res == Ok::<(), Seq<char>>(()) && apres.contenu() == self.contenu().remove(key)
        } else {
            res == Err::<(), Seq<char>>(cle_absente(key)) && apres.contenu() == self.contenu()
        }
    }

    /// Stores `value` under `key`, unless the key is taken.
    fn save(&mut self, key: &str, value: &str) -> (res: Result<(), String>) {
        if self.map.contains_key(key) {
            let debut = joindre("Clé '", key);
            Err(joindre(debut.as_str(), "' existe déjà"))
        } else {
            self.map.insert(key.to_owned(), value.to_owned());
            assert(self.contenu() =~= old(self).contenu().insert(key@, value@));
            Ok(())
        }
    }

    /// The text stored under `key`.
    fn load(&self, key: &str) -> (res: Result<String, String>) {
        match self.map.get(key) {
            Some(value) => Ok(value.clone()),
            None => {
                let debut = joindre("Clef '", key);
                Err(joindre(debut.as_str(), "' non trouvée !"))
            },
        }
    }

    /// Removes what is stored under `key`; fails where nothing is.
    fn delete(&mut self, key: &str) -> (res: Result<(), String>) {
        if self.map.contains_key(key) {
            self.map.remove(key);
            assert(self.contenu() =~= old(self).contenu().remove(key@));
            Ok(())
        } else {
            let debut = joindre("Clef '", key);
            Err(joindre(debut.as_str(), "' non trouvée !"))
        }
    }
}

/// A storage on disk, one file for each key, in one directory. The library
/// names the files; reading and writing them is left to its user.
pub struct FileStorage {
    base_directory: String,
}

impl FileStorage {
    /// The directory of the files.
    pub closed spec fn repertoire(&self) -> Seq<char> {
        self.base_directory@
    }

    /// The storage in the directory `directory`.
    pub fn new(directory: String) -> (storage: Self)
        ensures
            storage.repertoire() == directory@,
    {
        FileStorage { base_directory: directory }
    }

    /// The path of the file that holds what is stored under `key`.
    pub fn get_path(&self, key: &str) -> (path: String)
        ensures
            path@ == self.repertoire() + "/"@ + key@ + ".txt"@,
    {
        let debut = joindre(self.base_directory.as_str(), "/");
        let milieu = joindre(debut.as_str(), key);
        joindre(milieu.as_str(), ".txt")
    }
}

/// A storage that stores nothing: every operation succeeds, or every
/// operation fails, as chosen at its creation.
pub struct MockStorage {
    should_succeed: bool,
}

/// The error of a `save` that was set to fail.
pub open spec fn echec_save(key: Seq<char>, value: Seq<char>) -> Seq<char> {
    "Save échoué pour index '"@ + key + "' avec value '"@ + value + "'"@
}

/// The error of a `load` that was set to fail.
pub open spec fn echec_load(key: Seq<char>) -> Seq<char> {
    "load échoué pour index '"@ + key + "'"@
}

/// The error of a `delete` that was set to fail.
pub open spec fn echec_delete(key: Seq<char>) -> Seq<char> {
    "delete échoué pour index '"@ + key + "'"@
}

/// The value that a `load` set to succeed gives for `key`.
pub open spec fn valeur_mock(key: Seq<char>) -> Seq<char> {
    "Valeur 'mock' pour la clef '"@ + key + "'"@
}

impl MockStorage {
    /// Whether the operations succeed.
    pub closed spec fn reussit(&self) -> bool {
        self.should_succeed
    }

    /// The storage whose operations all succeed, or all fail.
    pub fn new(should_succeed: bool) -> (storage: MockStorage)
        ensures
            storage.reussit() == should_succeed,
    {
        MockStorage { should_succeed }
    }
}

impl Storage for MockStorage {
    /// The storage stays as it is, and succeeds or fails as it was set to.
    open spec fn saved(
        &self,
        key: Seq<char>,
        value: Seq<char>,
        apres: &Self,
        res: Result<(), Seq<char>>,
    ) -> bool {
        &&& apres.reussit() == self.reussit()
        &&& res == if self.reussit() {
            Ok::<(), Seq<char>>(())
        } else {
            Err::<(), Seq<char>>(echec_save(key, value))
        }
    }

    /// The answer is a made-up value, or the error, as the storage was set to.
    open spec fn loaded(&self, key: Seq<char>, res: Result<Seq<char>, Seq<char>>) -> bool {
        res == if self.reussit() {
            Ok::<Seq<char>, Seq<char>>(valeur_mock(key))
        } else {
            Err::<Seq<char>, Seq<char>>(echec_load(key))
        }
    }

    /// The storage stays as it is, and succeeds or fails as it was set to.
    open spec fn deleted(&self, key: Seq<char>, apres: &Self, res: Result<(), Seq<char>>) -> bool {
        &&& apres.reussit() == self.reussit()
        &&& res == if self.reussit() {
            Ok::<(), Seq<char>>(())
        } else {
            Err::<(), Seq<char>>(echec_delete(key))
        }
    }

    fn save(&mut self, key: &str, value: &str) -> (res: Result<(), String>) {
        if self.should_succeed {
            Ok(())
        } else {
            let a = joindre("Save échoué pour index '", key);
            let b = joindre(a.as_str(), "' avec value '");
            let c = joindre(b.as_str(), value);
            Err(joindre(c.as_str(), "'"))
        }
    }

    fn load(&self, key: &str) -> (res: Result<String, String>) {
        if self.should_succeed {
            let a = joindre("Valeur 'mock' pour la clef '", key);
            Ok(joindre(a.as_str(), "'"))
        } else {
            let a = joindre("load échoué pour index '", key);
            Err(joindre(a.as_str(), "'"))
        }
    }

    fn delete(&mut self, key: &str) -> (res: Result<(), String>) {
        if self.should_succeed {
            Ok(())
        } else {
            let a = joindre("delete échoué pour index '", key);
            Err(joindre(a.as_str(), "'"))
        }
    }
}

} // verus!
